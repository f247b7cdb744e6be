//! The record store: a key-value map from idempotency token to the content
//! digest of the payload first accepted under that token.
//!
//! The store offers a point lookup by token and a conditional create that
//! writes only if the token is absent, so a lost race surfaces as a failed
//! create instead of a silent overwrite. A record, once written, is never
//! mutated or deleted here.

use vstd::prelude::*;
use vstd::hash_map::StringHashMap;

verus! {

/// An in-memory record store, modelled as a map from token to digest.
pub struct MemStore {
    records: StringHashMap<Vec<u8>>,
}

impl View for MemStore {
    type V = Map<Seq<char>, Seq<u8>>;

    closed spec fn view(&self) -> Map<Seq<char>, Seq<u8>> {
        self.records@.map_values(|d: Vec<u8>| d@)
    }
}

impl MemStore {
    /// Creates an empty store.
    pub fn new() -> (r: Self)
        ensures
            r@ == Map::<Seq<char>, Seq<u8>>::empty(),
    {
        let r = MemStore { records: StringHashMap::new() };
        proof {
            assert(r@ =~= Map::<Seq<char>, Seq<u8>>::empty());
        }
        r
    }

    /// Point lookup by token: the stored digest, or `None` if no record
    /// exists for the token.
    pub fn get_by_token<'a>(&'a self, token: &str) -> (r: Option<&'a Vec<u8>>)
        ensures
            (r matches Some(d) ==> self@.contains_key(token@) && d@ == self@[token@]),
            (r matches None ==> !self@.contains_key(token@)),
    {
        self.records.get(token)
    }

    /// Conditional create: writes the record only if no record exists for
    /// the token, and reports whether it wrote. An existing record is never
    /// overwritten.
    pub fn put_if_new(&mut self, token: &str, digest: Vec<u8>) -> (r: bool)
        ensures
            r == !old(self)@.contains_key(token@),
            r ==> final(self)@ == old(self)@.insert(token@, digest@),
            !r ==> final(self)@ == old(self)@,
    {
        if self.records.contains_key(token) {
            false
        } else {
            self.records.insert(token.to_owned(), digest);
            proof {
                assert(self@ =~= old(self)@.insert(token@, digest@));
            }
            true
        }
    }
}

} // verus!
