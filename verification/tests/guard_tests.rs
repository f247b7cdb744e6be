use idempotency_guard::digest::{bytes_eq, digest};
use idempotency_guard::guard::{after_failed_create, decide_after_read, evaluate};
use idempotency_guard::outcome::Outcome;
use idempotency_guard::store::MemStore;

const MD5_HELLO: [u8; 16] = [
    0x5d, 0x41, 0x40, 0x2a, 0xbc, 0x4b, 0x2a, 0x76, 0xb9, 0x71, 0x9d, 0x91, 0x10, 0x17, 0xc5,
    0x92,
];

const MD5_EMPTY: [u8; 16] = [
    0xd4, 0x1d, 0x8c, 0xd9, 0x8f, 0x00, 0xb2, 0x04, 0xe9, 0x80, 0x09, 0x98, 0xec, 0xf8, 0x42,
    0x7e,
];

#[test]
fn no_token_yields_no_token_and_no_store_operation() {
    let mut store = MemStore::new();
    let r = evaluate(&mut store, None, b"some payload");
    assert_eq!(r, Outcome::NoToken);
    assert!(store.get_by_token("some payload").is_none());
    assert!(store.get_by_token("").is_none());
}

#[test]
fn fresh_token_accepted_and_record_stored() {
    let mut store = MemStore::new();
    let r = evaluate(&mut store, Some("t1"), b"payload bytes");
    assert_eq!(r, Outcome::Accepted);
    let stored = store.get_by_token("t1").expect("record must exist");
    assert_eq!(stored, &digest(b"payload bytes"));
}

#[test]
fn duplicate_confirmed_and_store_unchanged() {
    let mut store = MemStore::new();
    assert_eq!(evaluate(&mut store, Some("t2"), b"same body"), Outcome::Accepted);
    let before = store.get_by_token("t2").unwrap().clone();
    assert_eq!(evaluate(&mut store, Some("t2"), b"same body"), Outcome::DuplicateConfirmed);
    let after = store.get_by_token("t2").unwrap();
    assert_eq!(after, &before);
}

#[test]
fn conflict_and_store_unchanged() {
    let mut store = MemStore::new();
    assert_eq!(evaluate(&mut store, Some("t3"), b"first body"), Outcome::Accepted);
    let before = store.get_by_token("t3").unwrap().clone();
    assert_eq!(evaluate(&mut store, Some("t3"), b"second body"), Outcome::Conflict);
    let after = store.get_by_token("t3").unwrap();
    assert_eq!(after, &before);
    assert_eq!(after, &digest(b"first body"));
}

#[test]
fn fresh_token_twice_is_accepted_then_duplicate_never_conflict() {
    let mut store = MemStore::new();
    let first = evaluate(&mut store, Some("fresh"), b"body");
    let second = evaluate(&mut store, Some("fresh"), b"body");
    assert_eq!(first, Outcome::Accepted);
    assert_eq!(second, Outcome::DuplicateConfirmed);
    assert_ne!(second, Outcome::Conflict);
}

#[test]
fn digest_is_deterministic_and_separates_distinct_payloads() {
    assert_eq!(digest(b"hello"), digest(b"hello"));
    assert_ne!(digest(b"hello"), digest(b"world"));
    assert_ne!(digest(b"p1"), digest(b"p2"));
}

#[test]
fn digest_matches_md5_of_payload() {
    assert_eq!(digest(b"hello"), MD5_HELLO.to_vec());
    assert_eq!(digest(b"hello"), md5::compute(b"hello").0.to_vec());
    assert_eq!(digest(b"").len(), 16);
    assert_eq!(digest(b""), MD5_EMPTY.to_vec());
}

#[test]
fn scenario_abc123_hello_world() {
    let mut store = MemStore::new();
    let first = evaluate(&mut store, Some("abc123"), b"hello");
    assert_eq!(first, Outcome::Accepted);
    let stored = store.get_by_token("abc123").expect("record must exist");
    assert_eq!(stored, &MD5_HELLO.to_vec());

    let second = evaluate(&mut store, Some("abc123"), b"hello");
    assert_eq!(second, Outcome::DuplicateConfirmed);

    let third = evaluate(&mut store, Some("abc123"), b"world");
    assert_eq!(third, Outcome::Conflict);
    assert_eq!(store.get_by_token("abc123").unwrap(), &MD5_HELLO.to_vec());
}

#[test]
fn empty_payload_is_accepted_and_replayable() {
    let mut store = MemStore::new();
    assert_eq!(evaluate(&mut store, Some("empty"), b""), Outcome::Accepted);
    assert_eq!(evaluate(&mut store, Some("empty"), b""), Outcome::DuplicateConfirmed);
    assert_eq!(evaluate(&mut store, Some("empty"), b"x"), Outcome::Conflict);
}

#[test]
fn race_of_first_attempts_exactly_one_accepted() {
    // Two concurrent first attempts with the same token and different
    // payloads: both read before either writes, so both see no record.
    let mut store = MemStore::new();
    let d1 = digest(b"payload one");
    let d2 = digest(b"payload two");
    assert!(store.get_by_token("race1").is_none());
    assert_eq!(decide_after_read(None, &d1), Outcome::Accepted);
    assert_eq!(decide_after_read(None, &d2), Outcome::Accepted);

    // The store serializes the conditional creates: the first wins.
    assert!(store.put_if_new("race1", d1.clone()));
    assert!(!store.put_if_new("race1", d2.clone()));

    // The loser re-reads the record the winner wrote and observes a
    // conflict; no overwrite happened.
    let written = store.get_by_token("race1").expect("winner's record");
    assert_eq!(after_failed_create(written, &d2), Outcome::Conflict);
    assert_eq!(written, &d1);
}

#[test]
fn race_via_evaluate_second_caller_conflicts() {
    let mut store = MemStore::new();
    assert_eq!(evaluate(&mut store, Some("race1"), b"payload one"), Outcome::Accepted);
    assert_eq!(evaluate(&mut store, Some("race1"), b"payload two"), Outcome::Conflict);
    assert_eq!(store.get_by_token("race1").unwrap(), &digest(b"payload one"));
}

#[test]
fn failed_create_with_matching_digest_is_duplicate() {
    let d = digest(b"same");
    assert_eq!(after_failed_create(&d, &digest(b"same")), Outcome::DuplicateConfirmed);
}

#[test]
fn decide_after_read_compares_digests() {
    let d = digest(b"a body");
    assert_eq!(decide_after_read(Some(&d), &digest(b"a body")), Outcome::DuplicateConfirmed);
    assert_eq!(decide_after_read(Some(&d), &digest(b"another body")), Outcome::Conflict);
    assert_eq!(decide_after_read(None, &d), Outcome::Accepted);
}

#[test]
fn put_if_new_never_overwrites() {
    let mut store = MemStore::new();
    assert!(store.put_if_new("k", vec![1, 2, 3]));
    assert!(!store.put_if_new("k", vec![4, 5, 6]));
    assert_eq!(store.get_by_token("k").unwrap(), &vec![1, 2, 3]);
    assert!(store.get_by_token("other").is_none());
}

#[test]
fn bytes_eq_compares_by_value() {
    assert!(bytes_eq(&vec![], &vec![]));
    assert!(bytes_eq(&vec![1, 2, 3], &vec![1, 2, 3]));
    assert!(!bytes_eq(&vec![1, 2, 3], &vec![1, 2, 4]));
    assert!(!bytes_eq(&vec![1, 2, 3], &vec![1, 2]));
    assert!(!bytes_eq(&vec![], &vec![0]));
}
