//! An idempotency guard: given a client-supplied idempotency token and a
//! request payload, it recognises retried requests with the same token as
//! duplicates and rejects a token reused with a different payload as a
//! conflict.
//!
//! The decision protocol is verified against a map model of the record
//! store: a token maps to the digest of the payload that was first accepted
//! under it. Records are created at most once and never mutated.

pub mod digest;
pub mod outcome;
pub mod store;
pub mod guard;
