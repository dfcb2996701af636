//! Response classification: one transport attempt's raw outcome is turned
//! into either the substantive payload or a failure tagged transient
//! (worth retrying) or permanent (terminal).

use vstd::prelude::*;

verus! {

/// Whether the text is a well-formed structured (JSON) document.
pub uninterp spec fn envelope_parses(s: Seq<char>) -> bool;

/// The embedded service error of a well-formed document: `Some((status,
/// message))` when the envelope carries an error object, `None` when it
/// does not. Meaningful only where `envelope_parses` holds.
pub uninterp spec fn envelope_error(s: Seq<char>) -> Option<(Seq<char>, Seq<char>)>;

/// The parsed shape of a response body, reduced to what classification
/// reads: whether it parsed, and the embedded error object if any.
enum Envelope {
    Malformed,
    Clean,
    ServiceError { status: String, message: String },
}

/// Relies on `serde_json::from_str::<serde_json::Value>` to parse the body
/// and on `serde_json::Value::get` / `Value::as_str` to read the embedded
/// `error` object's `status` and `message` members; the result depends on
/// the text alone (a missing or non-string member reads as the empty
/// string).
#[verifier::external_body]
fn parse_envelope(text: &str) -> (r: Envelope)
    ensures
        match r {
            Envelope::Malformed => !envelope_parses(text@),
            Envelope::Clean => envelope_parses(text@) && envelope_error(text@) is None,
            Envelope::ServiceError { status, message } => envelope_parses(text@)
                && envelope_error(text@) == Some((status@, message@)),
        },
{
    match serde_json::from_str::<serde_json::Value>(text) {
        Err(_) => Envelope::Malformed,
        Ok(v) => match v.get("error") {
            None => Envelope::Clean,
            Some(e) => Envelope::ServiceError {
                status: e.get("status").and_then(|s| s.as_str()).unwrap_or("").to_string(),
                message: e.get("message").and_then(|m| m.as_str()).unwrap_or("").to_string(),
            },
        },
    }
}

/// The underlying cause of a failed attempt, preserved verbatim for
/// diagnostics.
#[derive(Debug, PartialEq)]
pub enum Cause {
    /// The transport reached no response (connection failure, or the
    /// request could not even be constructed).
    Connection { detail: String },
    /// A response arrived with a non-success HTTP status.
    HttpStatus { status: u16 },
    /// A success response whose body is not a well-formed document.
    MalformedPayload,
    /// The service itself reported an error inside a success response.
    Service { status: String, message: String },
}

/// A failed attempt after classification: transient failures are presumed
/// to self-resolve and may be retried; permanent ones may not.
#[derive(Debug, PartialEq)]
pub enum ClassifiedError {
    Transient { cause: Cause, retry_after_ms: Option<u64> },
    Permanent { cause: Cause },
}

/// The raw result of exactly one transport attempt.
#[derive(Debug, PartialEq)]
pub enum RawOutcome {
    /// An HTTP success (2xx) response with its body text.
    Success { body: String },
    /// An HTTP response with a non-success status, and the suggested
    /// retry-after delay if the response carried one.
    HttpFailure { status: u16, retry_after_ms: Option<u64> },
    /// No response reached the client.
    ConnectionFailure { detail: String },
}

/// Whether a non-success HTTP status is presumed to self-resolve: server
/// errors (500-599) and the explicit rate-limit signal (429).
pub open spec fn transient_status(status: u16) -> bool {
    (500 <= status <= 599) || status == 429
}

/// The decision table relating a raw outcome to its classification.
pub open spec fn classifies(o: RawOutcome, r: Result<String, ClassifiedError>) -> bool {
    match o {
        RawOutcome::ConnectionFailure { detail } => r == Err::<String, _>(
            ClassifiedError::Transient {
                cause: Cause::Connection { detail },
                retry_after_ms: None,
            },
        ),
        RawOutcome::HttpFailure { status, retry_after_ms } => if transient_status(status) {
            r == Err::<String, _>(
                ClassifiedError::Transient { cause: Cause::HttpStatus { status }, retry_after_ms },
            )
        } else {
            r == Err::<String, _>(ClassifiedError::Permanent { cause: Cause::HttpStatus { status } })
        },
        RawOutcome::Success { body } => if !envelope_parses(body@) {
            r == Err::<String, _>(ClassifiedError::Permanent { cause: Cause::MalformedPayload })
        } else if envelope_error(body@) is Some {
            &&& r matches Err(ClassifiedError::Permanent { cause: Cause::Service { status, message } })
            &&& envelope_error(body@) == Some((status@, message@))
        } else {
            r == Ok::<_, ClassifiedError>(body)
        },
    }
}

/// Classifies one raw outcome. In order: a connection failure is
/// transient; a success body that does not parse is permanently malformed;
/// a parsed body carrying an embedded service error is permanent with the
/// service's status and message preserved; a parsed body without one is
/// the final success; a 5xx or 429 status is transient, carrying any
/// suggested retry-after; every other status is permanent.
pub fn classify(outcome: RawOutcome) -> (r: Result<String, ClassifiedError>)
    ensures
        classifies(outcome, r),
{
    match outcome {
        RawOutcome::ConnectionFailure { detail } => Err(
            ClassifiedError::Transient {
                cause: Cause::Connection { detail },
                retry_after_ms: None,
            },
        ),
        RawOutcome::HttpFailure { status, retry_after_ms } => {
            if (500 <= status && status <= 599) || status == 429 {
                Err(ClassifiedError::Transient { cause: Cause::HttpStatus { status }, retry_after_ms })
            } else {
                Err(ClassifiedError::Permanent { cause: Cause::HttpStatus { status } })
            }
        },
        RawOutcome::Success { body } => {
            match parse_envelope(body.as_str()) {
                Envelope::Malformed => Err(
                    ClassifiedError::Permanent { cause: Cause::MalformedPayload },
                ),
                Envelope::ServiceError { status, message } => Err(
                    ClassifiedError::Permanent { cause: Cause::Service { status, message } },
                ),
                Envelope::Clean => Ok(body),
            }
        },
    }
}

} // verus!
