//! The retry engine: one logical request execution, driven through a
//! bounded exponential-backoff loop. The engine owns every decision — when
//! to retry, how long to back off, when to stop — while its owner performs
//! the outside work (the network attempt, the sleep) that each returned
//! action asks for.

use vstd::prelude::*;
use vstd::string::*;
use crate::classify::{
    classify, envelope_error, envelope_parses, transient_status, Cause, ClassifiedError,
    RawOutcome,
};
use crate::query::Request;

verus! {

/// The fixed base of every request URL; the assembled query string is
/// appended to it.
pub const SERVICE_URL: &'static str = "https://roads.googleapis.com/v1/nearestRoads";

/// The retry budget and backoff shape of one execution.
#[derive(Clone, Copy, PartialEq, Eq, Structural, Debug)]
pub struct RetryPolicy {
    /// The most attempts one execution may perform, first attempt included.
    pub max_attempts: u32,
    /// The first backoff interval, in milliseconds.
    pub base_delay_ms: u64,
    /// The bound every backoff interval stays under, in milliseconds.
    pub max_delay_ms: u64,
}

impl RetryPolicy {
    /// At least one attempt, and a positive first interval no longer than
    /// the bound.
    pub open spec fn wf(self) -> bool {
        &&& 1 <= self.max_attempts
        &&& 1 <= self.base_delay_ms <= self.max_delay_ms
    }

    /// A conservative default: eight attempts, intervals doubling from
    /// half a second up to one minute.
    pub fn new_default() -> (r: RetryPolicy)
        ensures
            r.wf(),
            r == (RetryPolicy { max_attempts: 8u32, base_delay_ms: 500u64, max_delay_ms: 60000u64 }),
    {
        RetryPolicy { max_attempts: 8, base_delay_ms: 500, max_delay_ms: 60000 }
    }
}

/// One doubling of the backoff interval, saturating at the bound.
pub open spec fn next_interval(d: u64, cap: u64) -> u64 {
    if d <= cap / 2 {
        (2 * d) as u64
    } else {
        cap
    }
}

/// The nominal backoff interval before retry `k` is performed (`k == 0`
/// for the first retry): the base interval doubled `k` times, saturating
/// at the bound.
pub open spec fn nominal_delay(p: RetryPolicy, k: nat) -> u64
    decreases k,
{
    if k == 0 {
        p.base_delay_ms
    } else {
        next_interval(nominal_delay(p, (k - 1) as nat), p.max_delay_ms)
    }
}

/// The nominal backoff sequence is positive, bounded above by
/// `max_delay_ms`, and non-decreasing — so in particular every jittered
/// delay drawn from it stays bounded, and successive delays never shrink
/// in expectation.
pub proof fn lemma_nominal_delay_bounded_monotone(p: RetryPolicy, k: nat)
    requires
        p.wf(),
    ensures
        1 <= nominal_delay(p, k) <= p.max_delay_ms,
        nominal_delay(p, k) <= nominal_delay(p, k + 1),
    decreases k,
{
    if k == 0 {
    } else {
        lemma_nominal_delay_bounded_monotone(p, (k - 1) as nat);
    }
}

/// The jittered delay drawn from a nominal interval: a value in the upper
/// half of the interval, `[nominal / 2, nominal]`, picked by the caller's
/// jitter source so that concurrent executions do not retry in lockstep.
pub open spec fn jittered(nominal: u64, jitter: u64) -> u64 {
    (nominal / 2 + (jitter as int) % (nominal - nominal / 2 + 1)) as u64
}

/// The delay actually slept before retry `k`: a suggested retry-after
/// (capped at the bound) wins over the engine's own jittered nominal
/// interval.
pub open spec fn chosen_delay(p: RetryPolicy, k: nat, retry_after_ms: Option<u64>, jitter: u64) -> u64 {
    match retry_after_ms {
        Some(ra) => if ra <= p.max_delay_ms {
            ra
        } else {
            p.max_delay_ms
        },
        None => jittered(nominal_delay(p, k), jitter),
    }
}

/// Whatever jitter the caller supplies and whatever retry-after the
/// service suggests, the delay actually slept never exceeds the
/// configured maximum interval.
pub proof fn lemma_chosen_delay_bounded(
    p: RetryPolicy,
    k: nat,
    retry_after_ms: Option<u64>,
    jitter: u64,
)
    requires
        p.wf(),
    ensures
        chosen_delay(p, k, retry_after_ms, jitter) <= p.max_delay_ms,
{
    match retry_after_ms {
        Some(_) => {},
        None => {
            lemma_nominal_delay_bounded_monotone(p, k);
        },
    }
}

fn compute_nominal(p: &RetryPolicy, k: u32) -> (d: u64)
    requires
        p.wf(),
    ensures
        d == nominal_delay(*p, k as nat),
{
    let mut d: u64 = p.base_delay_ms;
    let mut j: u32 = 0;
    while j < k
        invariant
            p.wf(),
            j <= k,
            d == nominal_delay(*p, j as nat),
        decreases k - j,
    {
        d = if d <= p.max_delay_ms / 2 {
            2 * d
        } else {
            p.max_delay_ms
        };
        j = j + 1;
    }
    d
}

fn compute_delay(p: &RetryPolicy, k: u32, retry_after_ms: Option<u64>, jitter: u64) -> (d: u64)
    requires
        p.wf(),
    ensures
        d == chosen_delay(*p, k as nat, retry_after_ms, jitter),
{
    match retry_after_ms {
        Some(ra) => if ra <= p.max_delay_ms {
            ra
        } else {
            p.max_delay_ms
        },
        None => {
            let nominal = compute_nominal(p, k);
            let half = nominal / 2;
            half + jitter % (nominal - half + 1)
        },
    }
}

/// Where one execution stands. `made` counts the attempts performed so
/// far, and is frozen when a terminal state is reached.
#[derive(Debug, PartialEq)]
pub enum EngineState {
    /// An attempt is due or under way.
    Attempting { made: u32 },
    /// A transient failure was seen; the next attempt waits out a delay.
    BackingOff { made: u32, delay_ms: u64, cause: Cause },
    /// Terminal: an attempt succeeded; `payload` is the response body.
    Succeeded { made: u32, payload: String },
    /// Terminal: a permanent failure, or the retry budget ran out.
    Failed { made: u32, cause: Cause },
    /// Terminal: the caller abandoned the execution.
    Cancelled { made: u32 },
}

/// What the engine's owner must do next.
#[derive(Clone, Copy, PartialEq, Eq, Structural, Debug)]
pub enum Action {
    /// Acquire rate budget, perform one transport attempt, and report its
    /// outcome through `on_outcome`.
    Attempt,
    /// Wait out the delay, then report through `on_backoff_elapsed`.
    Sleep { delay_ms: u64 },
    /// The execution is over; take its result with `into_result`.
    Finish,
    /// The execution was cancelled: release any rate-limit debit still
    /// held for the attempt that will no longer happen, then stop.
    ReleaseBudget,
}

/// What one execution surfaces to its caller when it does not succeed.
#[derive(Debug, PartialEq)]
pub enum RequestError {
    /// The request was executed before its query string was built: a
    /// caller bug, reported before any network attempt.
    QueryNotBuilt,
    /// A terminal classified failure, with its cause preserved.
    Terminal { cause: Cause },
    /// The caller abandoned the execution.
    Cancelled,
}

/// The abstract class of one attempt's outcome, with the payloads erased.
pub enum AttemptClass {
    Succeeds,
    PermanentFailure,
    TransientFailure,
}

/// The abstract class a raw outcome falls under once classified.
pub open spec fn outcome_class(o: RawOutcome) -> AttemptClass {
    match o {
        RawOutcome::ConnectionFailure { .. } => AttemptClass::TransientFailure,
        RawOutcome::HttpFailure { status, .. } => if transient_status(status) {
            AttemptClass::TransientFailure
        } else {
            AttemptClass::PermanentFailure
        },
        RawOutcome::Success { body } => if envelope_parses(body@) && envelope_error(body@) is None {
            AttemptClass::Succeeds
        } else {
            AttemptClass::PermanentFailure
        },
    }
}

/// An execution's state with the payloads erased: what the engine's laws
/// are stated over.
pub enum Phase {
    Attempting { made: nat },
    BackingOff { made: nat },
    Succeeded { made: nat },
    Failed { made: nat },
    Cancelled { made: nat },
}

/// An event with the payloads erased.
pub enum AbsEvent {
    Outcome { class: AttemptClass },
    BackoffElapsed,
    Cancel,
}

/// The phase an engine state falls under.
pub open spec fn phase_of(s: EngineState) -> Phase {
    match s {
        EngineState::Attempting { made } => Phase::Attempting { made: made as nat },
        EngineState::BackingOff { made, .. } => Phase::BackingOff { made: made as nat },
        EngineState::Succeeded { made, .. } => Phase::Succeeded { made: made as nat },
        EngineState::Failed { made, .. } => Phase::Failed { made: made as nat },
        EngineState::Cancelled { made } => Phase::Cancelled { made: made as nat },
    }
}

/// The attempts performed by the time a phase is reached.
pub open spec fn made_of(ph: Phase) -> nat {
    match ph {
        Phase::Attempting { made } => made,
        Phase::BackingOff { made } => made,
        Phase::Succeeded { made } => made,
        Phase::Failed { made } => made,
        Phase::Cancelled { made } => made,
    }
}

/// Whether a phase is terminal: no event leads out of it.
pub open spec fn is_terminal(ph: Phase) -> bool {
    ph is Succeeded || ph is Failed || ph is Cancelled
}

/// A phase the engine can actually be in under policy `p`: a live phase
/// has retry budget left, and no phase has performed more attempts than
/// the budget allows.
pub open spec fn wf_phase(p: RetryPolicy, ph: Phase) -> bool {
    match ph {
        Phase::Attempting { made } => made < p.max_attempts,
        Phase::BackingOff { made } => made < p.max_attempts,
        Phase::Succeeded { made } => made <= p.max_attempts,
        Phase::Failed { made } => made <= p.max_attempts,
        Phase::Cancelled { made } => made <= p.max_attempts,
    }
}

/// The engine's transition relation over phases. A success or a permanent
/// failure ends the execution at once; a transient failure backs off only
/// while budget remains; cancellation ends any live execution; terminal
/// phases absorb every event; an event a live phase does not expect (an
/// outcome while backing off, a backoff expiry while attempting) changes
/// nothing.
pub open spec fn phase_step(p: RetryPolicy, ph: Phase, e: AbsEvent) -> Phase {
    match ph {
        Phase::Attempting { made } => match e {
            AbsEvent::Outcome { class } => match class {
                AttemptClass::Succeeds => Phase::Succeeded { made: made + 1 },
                AttemptClass::PermanentFailure => Phase::Failed { made: made + 1 },
                AttemptClass::TransientFailure => if made + 1 < p.max_attempts {
                    Phase::BackingOff { made: made + 1 }
                } else {
                    Phase::Failed { made: made + 1 }
                },
            },
            AbsEvent::BackoffElapsed => ph,
            AbsEvent::Cancel => Phase::Cancelled { made },
        },
        Phase::BackingOff { made } => match e {
            AbsEvent::BackoffElapsed => Phase::Attempting { made },
            AbsEvent::Outcome { .. } => ph,
            AbsEvent::Cancel => Phase::Cancelled { made },
        },
        _ => ph,
    }
}

/// The phase after a whole sequence of events.
pub open spec fn run_phases(p: RetryPolicy, ph: Phase, evs: Seq<AbsEvent>) -> Phase
    decreases evs.len(),
{
    if evs.len() == 0 {
        ph
    } else {
        run_phases(p, phase_step(p, ph, evs.first()), evs.drop_first())
    }
}

/// The retry engine never performs more than the configured maximum
/// attempts: from any phase the engine can be in, whatever events arrive
/// and in whatever order, the attempt count only grows and never passes
/// `max_attempts`.
pub proof fn lemma_attempts_never_exceed_max(p: RetryPolicy, ph: Phase, evs: Seq<AbsEvent>)
    requires
        p.wf(),
        wf_phase(p, ph),
    ensures
        wf_phase(p, run_phases(p, ph, evs)),
        made_of(ph) <= made_of(run_phases(p, ph, evs)),
        made_of(run_phases(p, ph, evs)) <= p.max_attempts,
    decreases evs.len(),
{
    if evs.len() == 0 {
    } else {
        lemma_attempts_never_exceed_max(p, phase_step(p, ph, evs.first()), evs.drop_first());
    }
}

/// A terminal phase absorbs every further event: nothing — in particular
/// no further attempt — happens after an execution ends.
pub proof fn lemma_terminal_absorbs(p: RetryPolicy, ph: Phase, evs: Seq<AbsEvent>)
    requires
        is_terminal(ph),
    ensures
        run_phases(p, ph, evs) == ph,
    decreases evs.len(),
{
    if evs.len() == 0 {
    } else {
        lemma_terminal_absorbs(p, ph, evs.drop_first());
    }
}

/// The engine never retries after a permanent classification: an attempt
/// that classifies permanent fails the execution at once, and whatever
/// events follow, it stays failed with the attempt count frozen.
pub proof fn lemma_no_retry_after_permanent(p: RetryPolicy, made: nat, evs: Seq<AbsEvent>)
    ensures
        run_phases(
            p,
            phase_step(
                p,
                Phase::Attempting { made },
                AbsEvent::Outcome { class: AttemptClass::PermanentFailure },
            ),
            evs,
        ) == (Phase::Failed { made: made + 1 }),
{
    lemma_terminal_absorbs(p, Phase::Failed { made: made + 1 }, evs);
}

/// Cancelling a live execution prevents any further attempt: the cancel
/// event ends it with the attempt count frozen, and whatever events
/// follow, nothing more happens.
pub proof fn lemma_cancel_stops_attempts(p: RetryPolicy, ph: Phase, evs: Seq<AbsEvent>)
    requires
        !is_terminal(ph),
    ensures
        phase_step(p, ph, AbsEvent::Cancel) == (Phase::Cancelled { made: made_of(ph) }),
        run_phases(p, phase_step(p, ph, AbsEvent::Cancel), evs) == (Phase::Cancelled {
            made: made_of(ph),
        }),
{
    lemma_terminal_absorbs(p, Phase::Cancelled { made: made_of(ph) }, evs);
}

/// The cause an attempt's failure carries, per the classification table.
pub open spec fn cause_matches(o: RawOutcome, cause: Cause) -> bool {
    match o {
        RawOutcome::ConnectionFailure { detail } => cause == (Cause::Connection { detail }),
        RawOutcome::HttpFailure { status, .. } => cause == (Cause::HttpStatus { status }),
        RawOutcome::Success { body } => if !envelope_parses(body@) {
            cause == Cause::MalformedPayload
        } else {
            &&& cause matches Cause::Service { status, message }
            &&& envelope_error(body@) == Some((status@, message@))
        },
    }
}

/// The suggested retry-after delay a raw outcome carries, if any.
pub open spec fn retry_after_of(o: RawOutcome) -> Option<u64> {
    match o {
        RawOutcome::HttpFailure { retry_after_ms, .. } => retry_after_ms,
        _ => None,
    }
}

/// One logical request execution: the assembled URL, the retry policy,
/// and where the engine stands.
pub struct Execution {
    pub policy: RetryPolicy,
    pub url: String,
    pub state: EngineState,
}

impl Execution {
    /// A well-formed execution: its policy is, and its phase is one the
    /// engine can be in.
    pub open spec fn wf(self) -> bool {
        &&& self.policy.wf()
        &&& wf_phase(self.policy, phase_of(self.state))
    }

    /// Starts one execution of a request. Fails with the
    /// contract-violation error — before any network attempt exists to be
    /// performed — exactly when the request's query string has not been
    /// built; otherwise the execution begins with its first attempt due
    /// and the URL assembled from the service base and the query.
    pub fn start(request: &Request, policy: RetryPolicy) -> (r: Result<Execution, RequestError>)
        requires
            policy.wf(),
        ensures
            match request.query {
                None => r == Err::<Execution, RequestError>(RequestError::QueryNotBuilt),
                Some(q) => {
                    &&& r matches Ok(ex)
                    &&& ex.wf()
                    &&& ex.policy == policy
                    &&& ex.state == (EngineState::Attempting { made: 0u32 })
                    &&& ex.url@ == SERVICE_URL@ + "/?"@ + q@
                },
            },
    {
        match &request.query {
            None => Err(RequestError::QueryNotBuilt),
            Some(q) => {
                let mut url = String::from_str(SERVICE_URL);
                url.append("/?");
                url.append(q.as_str());
                proof {
                    assert(url@ =~= SERVICE_URL@ + "/?"@ + q@);
                }
                Ok(Execution { policy, url, state: EngineState::Attempting { made: 0 } })
            },
        }
    }

    /// Takes one attempt's raw outcome, classifies it, and moves the
    /// engine: a success ends the execution with the payload; a permanent
    /// failure ends it with the cause preserved; a transient failure backs
    /// off for the chosen delay while attempts remain, and otherwise ends
    /// the execution with the last transient cause. `jitter` is the
    /// caller's randomness for the backoff jitter; the engine constrains
    /// it to the documented range whatever value is passed.
    pub fn on_outcome(&mut self, outcome: RawOutcome, jitter: u64) -> (a: Action)
        requires
            old(self).wf(),
            old(self).state is Attempting,
        ensures
            final(self).wf(),
            final(self).policy == old(self).policy,
            final(self).url == old(self).url,
            phase_of(final(self).state) == phase_step(
                old(self).policy,
                phase_of(old(self).state),
                AbsEvent::Outcome { class: outcome_class(outcome) },
            ),
            final(self).state matches EngineState::Succeeded { payload, .. } ==> outcome matches
                RawOutcome::Success { body } && payload == body,
            final(self).state matches EngineState::Failed { cause, .. } ==> cause_matches(
                outcome,
                cause,
            ),
            match (old(self).state, final(self).state) {
                (
                    EngineState::Attempting { made },
                    EngineState::BackingOff { delay_ms, cause, .. },
                ) => {
                    &&& delay_ms == chosen_delay(
                        old(self).policy,
                        made as nat,
                        retry_after_of(outcome),
                        jitter,
                    )
                    &&& cause_matches(outcome, cause)
                },
                _ => true,
            },
            a == match final(self).state {
                EngineState::BackingOff { delay_ms, .. } => Action::Sleep { delay_ms },
                _ => Action::Finish,
            },
    {
        let made = match &self.state {
            EngineState::Attempting { made } => *made,
            _ => 0,
        };
        let classified = classify(outcome);
        match classified {
            Ok(payload) => {
                self.state = EngineState::Succeeded { made: made + 1, payload };
                Action::Finish
            },
            Err(ClassifiedError::Permanent { cause }) => {
                self.state = EngineState::Failed { made: made + 1, cause };
                Action::Finish
            },
            Err(ClassifiedError::Transient { cause, retry_after_ms }) => {
                if made + 1 < self.policy.max_attempts {
                    let delay_ms = compute_delay(&self.policy, made, retry_after_ms, jitter);
                    self.state = EngineState::BackingOff { made: made + 1, delay_ms, cause };
                    Action::Sleep { delay_ms }
                } else {
                    self.state = EngineState::Failed { made: made + 1, cause };
                    Action::Finish
                }
            },
        }
    }

    /// The backoff delay has been waited out: the next attempt is due.
    pub fn on_backoff_elapsed(&mut self) -> (a: Action)
        requires
            old(self).wf(),
            old(self).state is BackingOff,
        ensures
            final(self).wf(),
            final(self).policy == old(self).policy,
            final(self).url == old(self).url,
            match old(self).state {
                EngineState::BackingOff { made, .. } => final(self).state == (
                EngineState::Attempting { made }),
                _ => false,
            },
            phase_of(final(self).state) == phase_step(
                old(self).policy,
                phase_of(old(self).state),
                AbsEvent::BackoffElapsed,
            ),
            a == Action::Attempt,
    {
        let made = match &self.state {
            EngineState::BackingOff { made, .. } => *made,
            _ => 0,
        };
        self.state = EngineState::Attempting { made };
        Action::Attempt
    }

    /// The caller abandons a live execution: no further attempt will be
    /// scheduled, the attempt count is frozen, and the returned action
    /// tells the owner to give back any rate-limit debit still held.
    pub fn cancel(&mut self) -> (a: Action)
        requires
            old(self).wf(),
            old(self).state is Attempting || old(self).state is BackingOff,
        ensures
            final(self).wf(),
            final(self).policy == old(self).policy,
            final(self).url == old(self).url,
            final(self).state == (EngineState::Cancelled {
                made: made_of(phase_of(old(self).state)) as u32,
            }),
            phase_of(final(self).state) == phase_step(
                old(self).policy,
                phase_of(old(self).state),
                AbsEvent::Cancel,
            ),
            a == Action::ReleaseBudget,
    {
        let made = match &self.state {
            EngineState::Attempting { made } => *made,
            EngineState::BackingOff { made, .. } => *made,
            _ => 0,
        };
        self.state = EngineState::Cancelled { made };
        Action::ReleaseBudget
    }

    /// The outcome a finished execution surfaces: the payload on success,
    /// otherwise one tagged terminal error — never a raw transport
    /// failure.
    pub fn into_result(self) -> (r: Result<String, RequestError>)
        requires
            is_terminal(phase_of(self.state)),
        ensures
            match self.state {
                EngineState::Succeeded { payload, .. } => r == Ok::<_, RequestError>(payload),
                EngineState::Failed { cause, .. } => r == Err::<String, _>(
                    RequestError::Terminal { cause },
                ),
                EngineState::Cancelled { .. } => r == Err::<String, _>(RequestError::Cancelled),
                _ => false,
            },
    {
        match self.state {
            EngineState::Succeeded { payload, .. } => Ok(payload),
            EngineState::Failed { cause, .. } => Err(RequestError::Terminal { cause }),
            EngineState::Cancelled { .. } => Err(RequestError::Cancelled),
            EngineState::Attempting { .. } => Err(RequestError::Cancelled),
            EngineState::BackingOff { .. } => Err(RequestError::Cancelled),
        }
    }

    /// How many attempts this execution has performed so far.
    pub fn attempts_made(&self) -> (n: u32)
        ensures
            n as nat == made_of(phase_of(self.state)),
    {
        match &self.state {
            EngineState::Attempting { made } => *made,
            EngineState::BackingOff { made, .. } => *made,
            EngineState::Succeeded { made, .. } => *made,
            EngineState::Failed { made, .. } => *made,
            EngineState::Cancelled { made } => *made,
        }
    }
}

} // verus!
