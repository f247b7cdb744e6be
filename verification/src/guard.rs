//! The idempotency guard: the decision protocol over the record store.
//!
//! `evaluate` is the whole protocol against the in-memory store model: one
//! read always (when a token is present), one conditional write only on the
//! first-attempt path. `decide_after_read` and `after_failed_create` are the
//! same decisions as pure functions, for a transport layer that runs the
//! read and the conditional create against an external store and hands the
//! results back.

use vstd::prelude::*;
use crate::digest::{digest, bytes_eq, md5_of};
use crate::outcome::Outcome;
use crate::store::MemStore;

verus! {

/// The token of a request, as the sequence of its characters, if one was
/// supplied.
pub open spec fn token_view(token: Option<&str>) -> Option<Seq<char>> {
    match token {
        None => None,
        Some(t) => Some(t@),
    }
}

/// What outcome an idempotency check decides, given the store contents, the
/// token and the payload.
pub open spec fn eval_outcome(
    m: Map<Seq<char>, Seq<u8>>,
    token: Option<Seq<char>>,
    payload: Seq<u8>,
) -> Outcome {
    match token {
        None => Outcome::NoToken,
        Some(t) => if !m.contains_key(t) {
            Outcome::Accepted
        } else if m[t] == md5_of(payload) {
            Outcome::DuplicateConfirmed
        } else {
            Outcome::Conflict
        },
    }
}

/// What the store holds after an idempotency check: a record is created
/// exactly on the first-attempt path, and nothing else is ever written.
pub open spec fn eval_store(
    m: Map<Seq<char>, Seq<u8>>,
    token: Option<Seq<char>>,
    payload: Seq<u8>,
) -> Map<Seq<char>, Seq<u8>> {
    match token {
        None => m,
        Some(t) => if !m.contains_key(t) {
            m.insert(t, md5_of(payload))
        } else {
            m
        },
    }
}

/// Evaluates one (token, payload) pair against the store: decides between
/// the four outcomes and performs at most one read and one conditional
/// write, as `eval_outcome` and `eval_store` state.
pub fn evaluate(store: &mut MemStore, token: Option<&str>, payload: &[u8]) -> (r: Outcome)
    requires
        (token matches Some(t) ==> t@.len() > 0),
    ensures
        r == eval_outcome(old(store)@, token_view(token), payload@),
        final(store)@ == eval_store(old(store)@, token_view(token), payload@),
{
    match token {
        None => Outcome::NoToken,
        Some(t) => {
            let d = digest(payload);
            match store.get_by_token(t) {
                None => {
                    let _created = store.put_if_new(t, d);
                    Outcome::Accepted
                },
                Some(existing) => {
                    if bytes_eq(existing, &d) {
                        Outcome::DuplicateConfirmed
                    } else {
                        Outcome::Conflict
                    }
                },
            }
        },
    }
}

/// Decides the outcome from the result of the store read: no record means a
/// first attempt to accept (the caller must then attempt the conditional
/// create), a record with the payload's digest a confirmed duplicate, and a
/// record with any other digest a conflict.
pub fn decide_after_read(existing: Option<&Vec<u8>>, payload_digest: &Vec<u8>) -> (r: Outcome)
    ensures
        (existing matches None ==> r == Outcome::Accepted),
        (existing matches Some(d) && d@ == payload_digest@ ==> r == Outcome::DuplicateConfirmed),
        (existing matches Some(d) && d@ != payload_digest@ ==> r == Outcome::Conflict),
{
    match existing {
        None => Outcome::Accepted,
        Some(d) => {
            if bytes_eq(d, payload_digest) {
                Outcome::DuplicateConfirmed
            } else {
                Outcome::Conflict
            }
        },
    }
}

/// Decides the outcome after a conditional create failed because a record
/// already existed (a concurrent first attempt won the race): a confirmed
/// duplicate if the record's digest matches the payload's, a conflict
/// otherwise.
pub fn after_failed_create(existing: &Vec<u8>, payload_digest: &Vec<u8>) -> (r: Outcome)
    ensures
        (existing@ == payload_digest@ ==> r == Outcome::DuplicateConfirmed),
        (existing@ != payload_digest@ ==> r == Outcome::Conflict),
{
    if bytes_eq(existing, payload_digest) {
        Outcome::DuplicateConfirmed
    } else {
        Outcome::Conflict
    }
}

/// Without a token no deduplication applies: the outcome is `NoToken` and
/// the store is untouched.
pub proof fn lemma_no_token(m: Map<Seq<char>, Seq<u8>>, payload: Seq<u8>)
    ensures
        eval_outcome(m, None, payload) == Outcome::NoToken,
        eval_store(m, None, payload) == m,
{
}

/// A token not yet in the store is accepted, and the store afterwards holds
/// a record for it whose digest is the payload's digest.
pub proof fn lemma_fresh_token_accepted(m: Map<Seq<char>, Seq<u8>>, t: Seq<char>, payload: Seq<u8>)
    requires
        !m.contains_key(t),
    ensures
        eval_outcome(m, Some(t), payload) == Outcome::Accepted,
        eval_store(m, Some(t), payload).contains_key(t),
        eval_store(m, Some(t), payload)[t] == md5_of(payload),
{
}

/// A token stored with the digest of the same payload is a confirmed
/// duplicate, and nothing is written: the store is unchanged.
pub proof fn lemma_duplicate_confirmed(m: Map<Seq<char>, Seq<u8>>, t: Seq<char>, payload: Seq<u8>)
    requires
        m.contains_key(t),
        m[t] == md5_of(payload),
    ensures
        eval_outcome(m, Some(t), payload) == Outcome::DuplicateConfirmed,
        eval_store(m, Some(t), payload) == m,
{
}

/// A token stored with a digest other than the payload's is a conflict, and
/// nothing is written: the store is unchanged.
pub proof fn lemma_conflict(m: Map<Seq<char>, Seq<u8>>, t: Seq<char>, payload: Seq<u8>)
    requires
        m.contains_key(t),
        m[t] != md5_of(payload),
    ensures
        eval_outcome(m, Some(t), payload) == Outcome::Conflict,
        eval_store(m, Some(t), payload) == m,
{
}

/// Idempotence: evaluating a fresh token twice in sequence with the same
/// payload yields `Accepted` then `DuplicateConfirmed`, never `Conflict`,
/// and the second evaluation writes nothing.
pub proof fn lemma_idempotent(m: Map<Seq<char>, Seq<u8>>, t: Seq<char>, payload: Seq<u8>)
    requires
        !m.contains_key(t),
    ensures
        eval_outcome(m, Some(t), payload) == Outcome::Accepted,
        eval_outcome(eval_store(m, Some(t), payload), Some(t), payload)
            == Outcome::DuplicateConfirmed,
        eval_store(eval_store(m, Some(t), payload), Some(t), payload)
            == eval_store(m, Some(t), payload),
{
}

/// Two first attempts with one fresh token, serialized by the store's
/// conditional create: the first is accepted; the second sees the first's
/// record and, when the payloads' digests differ, observes a conflict — not
/// a second acceptance and no overwrite. When the digests match it is a
/// confirmed duplicate.
pub proof fn lemma_race_of_first_attempts(
    m: Map<Seq<char>, Seq<u8>>,
    t: Seq<char>,
    p1: Seq<u8>,
    p2: Seq<u8>,
)
    requires
        !m.contains_key(t),
    ensures
        eval_outcome(m, Some(t), p1) == Outcome::Accepted,
        md5_of(p1) != md5_of(p2) ==> eval_outcome(eval_store(m, Some(t), p1), Some(t), p2)
            == Outcome::Conflict,
        md5_of(p1) == md5_of(p2) ==> eval_outcome(eval_store(m, Some(t), p1), Some(t), p2)
            == Outcome::DuplicateConfirmed,
        eval_store(eval_store(m, Some(t), p1), Some(t), p2) == eval_store(m, Some(t), p1),
{
}

} // verus!
