//! Outcomes of an idempotency check and their mapping to transport replies.
//!
//! The four outcomes are mutually exclusive; a store fault is a distinct
//! error, never silently folded into an outcome.

use vstd::prelude::*;

verus! {

/// The outcome of evaluating one (token, payload) pair.
#[derive(Clone, Copy, Debug, PartialEq, Eq, Structural)]
pub enum Outcome {
    /// No token was supplied: deduplication is disabled for this request.
    NoToken,
    /// No record existed for the token; one was written. First attempt.
    Accepted,
    /// A record existed and its digest matches the payload's digest: a safe
    /// replay, nothing written.
    DuplicateConfirmed,
    /// A record existed with a different digest: the token was reused for a
    /// different request body, nothing written.
    Conflict,
}

/// A fault of the record store (connectivity, protocol, serialization),
/// distinct from the four outcomes.
pub struct StoreError {
    /// The underlying diagnostic message.
    pub message: String,
}

/// The status class of a reply for an outcome.
pub open spec fn status_of(o: Outcome) -> u16 {
    match o {
        Outcome::NoToken => 200,
        Outcome::Accepted => 200,
        Outcome::DuplicateConfirmed => 200,
        Outcome::Conflict => 400,
    }
}

/// The body of a reply for an outcome.
pub open spec fn message_of(o: Outcome) -> Seq<char> {
    match o {
        Outcome::NoToken => "No idempotency token"@,
        Outcome::Accepted => "Saved the item alongside the idempotency token"@,
        Outcome::DuplicateConfirmed => "Got the response and the idempotency tokens match"@,
        Outcome::Conflict => "Bad hash value"@,
    }
}

/// The status code of the reply that stands for this outcome.
pub fn status_code(o: &Outcome) -> (r: u16)
    ensures
        r == status_of(*o),
{
    match o {
        Outcome::NoToken => 200,
        Outcome::Accepted => 200,
        Outcome::DuplicateConfirmed => 200,
        Outcome::Conflict => 400,
    }
}

/// The body of the reply that stands for this outcome.
pub fn message(o: &Outcome) -> (r: String)
    ensures
        r@ == message_of(*o),
{
    match o {
        Outcome::NoToken => "No idempotency token".to_owned(),
        Outcome::Accepted => "Saved the item alongside the idempotency token".to_owned(),
        Outcome::DuplicateConfirmed => "Got the response and the idempotency tokens match".to_owned(),
        Outcome::Conflict => "Bad hash value".to_owned(),
    }
}

/// Builds the reply (status, body) for the result of an idempotency check:
/// each outcome maps to its status and message, and a store fault maps to
/// status 500 carrying the underlying message.
pub fn response_for(result: &Result<Outcome, StoreError>) -> (r: (u16, String))
    ensures
        (result matches Ok(o) ==> r.0 == status_of(*o) && r.1@ == message_of(*o)),
        (result matches Err(e) ==> r.0 == 500 && r.1@ == e.message@),
{
    match result {
        Ok(o) => (status_code(o), message(o)),
        Err(e) => (500, e.message.clone()),
    }
}

} // verus!
