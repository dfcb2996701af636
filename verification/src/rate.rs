//! Rate limiting: shared per-category budgets, debited ahead of every
//! network attempt (retries included), so total outbound rate never
//! exceeds policy. The owner serializes access (e.g., behind a mutex);
//! acquisition never errors — a caller whose budget is spent simply tries
//! again after the next refill.

use vstd::prelude::*;

verus! {

/// The categories a call may be throttled under: one per sub-API, plus
/// the budget shared by all APIs.
#[derive(Clone, Copy, PartialEq, Eq, Structural, Debug)]
pub enum Api {
    All,
    Directions,
    DistanceMatrix,
    Elevation,
    Geocoding,
    Places,
    Roads,
    TimeZone,
}

/// How many categories there are; budgets are indexed by `api_index`.
pub const API_COUNT: usize = 8;

/// The budget index of each category; the shared category is index 0.
pub open spec fn spec_api_index(a: Api) -> int {
    match a {
        Api::All => 0,
        Api::Directions => 1,
        Api::DistanceMatrix => 2,
        Api::Elevation => 3,
        Api::Geocoding => 4,
        Api::Places => 5,
        Api::Roads => 6,
        Api::TimeZone => 7,
    }
}

fn api_index(a: Api) -> (i: usize)
    ensures
        i == spec_api_index(a),
        i < API_COUNT,
{
    match a {
        Api::All => 0,
        Api::Directions => 1,
        Api::DistanceMatrix => 2,
        Api::Elevation => 3,
        Api::Geocoding => 4,
        Api::Places => 5,
        Api::Roads => 6,
        Api::TimeZone => 7,
    }
}

/// Whether budget index `i` must be debited for an acquisition naming the
/// categories `cats`: the shared budget always, a category's budget when
/// the category is named (duplicates count once).
pub open spec fn needs(cats: Seq<Api>, i: int) -> bool {
    i == 0 || exists|j: int| 0 <= j < cats.len() && spec_api_index(cats[j]) == i
}

/// Whether every budget an acquisition needs still has headroom.
pub open spec fn grant_ok(avail: Seq<u64>, cats: Seq<Api>) -> bool {
    forall|i: int| 0 <= i < avail.len() && needs(cats, i) ==> avail[i] > 0
}

/// The budgets after a granted acquisition: one unit off every needed
/// budget.
pub open spec fn debit(avail: Seq<u64>, cats: Seq<Api>) -> Seq<u64> {
    Seq::new(avail.len(), |i: int| if needs(cats, i) { (avail[i] - 1) as u64 } else { avail[i] })
}

/// The budgets after a released debit: one unit back on every needed
/// budget that is below its configured capacity.
pub open spec fn credit(avail: Seq<u64>, caps: Seq<u64>, cats: Seq<Api>) -> Seq<u64> {
    Seq::new(
        avail.len(),
        |i: int| if needs(cats, i) && avail[i] < caps[i] { (avail[i] + 1) as u64 } else { avail[i] },
    )
}

/// How many of a sequence of acquisition requests are granted when they
/// are applied in order against `avail` with no refill in between.
pub open spec fn granted_count(avail: Seq<u64>, reqs: Seq<Seq<Api>>) -> nat
    decreases reqs.len(),
{
    if reqs.len() == 0 {
        0
    } else if grant_ok(avail, reqs.first()) {
        1 + granted_count(debit(avail, reqs.first()), reqs.drop_first())
    } else {
        granted_count(avail, reqs.drop_first())
    }
}

/// The per-category call budgets of one client: `capacity` is the
/// configured allowance per refill window, `available` what is left of it.
pub struct RateLimiter {
    pub capacity: Vec<u64>,
    pub available: Vec<u64>,
}

impl RateLimiter {
    /// One budget per category, never more available than configured.
    pub open spec fn wf(self) -> bool {
        &&& self.capacity@.len() == API_COUNT
        &&& self.available@.len() == API_COUNT
        &&& forall|i: int| 0 <= i < API_COUNT ==> self.available@[i] <= self.capacity@[i]
    }

    /// A limiter with the given per-category capacities, starting with its
    /// full budget available.
    pub fn new(capacity: Vec<u64>) -> (r: RateLimiter)
        requires
            capacity@.len() == API_COUNT,
        ensures
            r.wf(),
            r.capacity@ == capacity@,
            r.available@ == capacity@,
    {
        let mut available: Vec<u64> = Vec::new();
        let mut i: usize = 0;
        while i < capacity.len()
            invariant
                i <= capacity@.len(),
                capacity@.len() == API_COUNT,
                available@ == capacity@.subrange(0, i as int),
            decreases capacity@.len() - i,
        {
            available.push(capacity[i]);
            i = i + 1;
        }
        assert(available@ =~= capacity@);
        RateLimiter { capacity, available }
    }

    /// Debits one unit from every budget the named categories need (the
    /// shared budget included), atomically: either every needed budget has
    /// headroom and all are debited, or nothing changes and the caller
    /// must wait for a refill and try again.
    pub fn try_acquire(&mut self, cats: &Vec<Api>) -> (granted: bool)
        requires
            old(self).wf(),
        ensures
            final(self).wf(),
            final(self).capacity@ == old(self).capacity@,
            granted == grant_ok(old(self).available@, cats@),
            granted ==> final(self).available@ == debit(old(self).available@, cats@),
            !granted ==> final(self).available@ == old(self).available@,
    {
        let mut i: usize = 0;
        while i < API_COUNT
            invariant
                self == old(self),
                old(self).wf(),
                self.wf(),
                i <= API_COUNT,
                forall|k: int| 0 <= k < i && needs(cats@, k) ==> self.available@[k] > 0,
            decreases API_COUNT - i,
        {
            let named = i == 0 || names_index(cats, i);
            proof {
                assert(named == needs(cats@, i as int));
            }
            if named && self.available[i] == 0 {
                assert(!grant_ok(old(self).available@, cats@));
                return false;
            }
            i = i + 1;
        }
        assert(grant_ok(old(self).available@, cats@));
        let mut i: usize = 0;
        while i < API_COUNT
            invariant
                old(self).wf(),
                self.wf(),
                i <= API_COUNT,
                self.capacity@ == old(self).capacity@,
                self.available@.len() == API_COUNT,
                grant_ok(old(self).available@, cats@),
                forall|k: int| 0 <= k < i ==> self.available@[k] == debit(
                    old(self).available@,
                    cats@,
                )[k],
                forall|k: int| i <= k < API_COUNT ==> self.available@[k] == old(
                    self,
                ).available@[k],
            decreases API_COUNT - i,
        {
            let named = i == 0 || names_index(cats, i);
            proof {
                assert(named == needs(cats@, i as int));
            }
            if named {
                assert(old(self).available@[i as int] > 0);
                let a = self.available[i];
                self.available.set(i, a - 1);
                assert(self.available@[i as int] == debit(old(self).available@, cats@)[i as int]);
            } else {
                assert(self.available@[i as int] == debit(old(self).available@, cats@)[i as int]);
            }
            i = i + 1;
        }
        assert(self.available@ =~= debit(old(self).available@, cats@));
        true
    }

    /// Gives one debit back to every budget the named categories need,
    /// saturating at the configured capacity: what a cancelled caller does
    /// with a debit it will no longer spend on an attempt.
    pub fn release(&mut self, cats: &Vec<Api>)
        requires
            old(self).wf(),
        ensures
            final(self).wf(),
            final(self).capacity@ == old(self).capacity@,
            final(self).available@ == credit(old(self).available@, old(self).capacity@, cats@),
    {
        let mut i: usize = 0;
        while i < API_COUNT
            invariant
                old(self).wf(),
                self.wf(),
                i <= API_COUNT,
                self.capacity@ == old(self).capacity@,
                self.available@.len() == API_COUNT,
                forall|k: int|
                    0 <= k < i ==> self.available@[k] == credit(
                        old(self).available@,
                        old(self).capacity@,
                        cats@,
                    )[k],
                forall|k: int| i <= k < API_COUNT ==> self.available@[k] == old(
                    self,
                ).available@[k],
            decreases API_COUNT - i,
        {
            let named = i == 0 || names_index(cats, i);
            proof {
                assert(named == needs(cats@, i as int));
            }
            if named && self.available[i] < self.capacity[i] {
                let a = self.available[i];
                self.available.set(i, a + 1);
                assert(self.available@[i as int] == credit(
                    old(self).available@,
                    old(self).capacity@,
                    cats@,
                )[i as int]);
            } else {
                assert(self.available@[i as int] == credit(
                    old(self).available@,
                    old(self).capacity@,
                    cats@,
                )[i as int]);
            }
            i = i + 1;
        }
        assert(self.available@ =~= credit(old(self).available@, old(self).capacity@, cats@));
    }

    /// A refill window has elapsed: every budget returns to its configured
    /// capacity.
    pub fn refill(&mut self)
        requires
            old(self).wf(),
        ensures
            final(self).wf(),
            final(self).capacity@ == old(self).capacity@,
            final(self).available@ == old(self).capacity@,
    {
        let mut fresh: Vec<u64> = Vec::new();
        let mut i: usize = 0;
        while i < self.capacity.len()
            invariant
                self.wf(),
                i <= API_COUNT,
                self == old(self),
                fresh@ == self.capacity@.subrange(0, i as int),
            decreases self.capacity@.len() - i,
        {
            fresh.push(self.capacity[i]);
            i = i + 1;
        }
        assert(fresh@ =~= self.capacity@);
        self.available = fresh;
    }
}

/// Whether some named category has budget index `i`.
fn names_index(cats: &Vec<Api>, i: usize) -> (r: bool)
    ensures
        r == exists|j: int| 0 <= j < cats@.len() && spec_api_index(cats@[j]) == i,
{
    let mut j: usize = 0;
    while j < cats.len()
        invariant
            j <= cats@.len(),
            forall|k: int| 0 <= k < j ==> spec_api_index(cats@[k]) != i,
        decreases cats@.len() - j,
    {
        if api_index(cats[j]) == i {
            return true;
        }
        j = j + 1;
    }
    false
}

/// However concurrent acquisitions interleave, their debits are serialized
/// by the limiter's owner; this law says no budget is then ever
/// oversubscribed: of any sequence of acquisition requests that all need
/// budget `j`, applied with no refill in between, at most `avail[j]` are
/// granted; the rest must wait for a refill. Every request needs the
/// shared budget (`j == 0`), so in particular at most `avail[0]` of any
/// requests at all proceed per window.
pub proof fn lemma_budget_never_oversubscribed(avail: Seq<u64>, reqs: Seq<Seq<Api>>, j: int)
    requires
        avail.len() == API_COUNT,
        0 <= j < API_COUNT,
        forall|t: int| 0 <= t < reqs.len() ==> needs(#[trigger] reqs[t], j),
    ensures
        granted_count(avail, reqs) <= avail[j],
    decreases reqs.len(),
{
    if reqs.len() == 0 {
    } else {
        assert(needs(reqs[0], j));
        assert(forall|t: int|
            0 <= t < reqs.drop_first().len() ==> #[trigger] reqs.drop_first()[t] == reqs[t + 1]);
        if grant_ok(avail, reqs.first()) {
            assert(avail[j] > 0);
            let next = debit(avail, reqs.first());
            assert(next[j] == avail[j] - 1);
            lemma_budget_never_oversubscribed(next, reqs.drop_first(), j);
        } else {
            lemma_budget_never_oversubscribed(avail, reqs.drop_first(), j);
        }
    }
}

} // verus!
