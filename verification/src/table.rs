//! The session table's storage: a `hashbrown::HashMap` from address keys to
//! session numbers, seen by the verifier as the `Map` it holds.

use vstd::prelude::*;
use crate::addr::AddrKey;

verus! {

/// A `hashbrown::HashMap<AddrKey, usize>`. The verifier does not look
/// inside; `entries` names what it holds.
#[verifier::external_body]
pub struct SessionMap {
    inner: hashbrown::HashMap<AddrKey, usize>,
}

/// The key-value pairs that a `SessionMap` holds.
pub uninterp spec fn entries(m: SessionMap) -> Map<AddrKey, usize>;

impl SessionMap {
    /// `hashbrown::HashMap::new`: a map that holds nothing.
    #[verifier::external_body]
    pub(crate) fn new() -> (table: SessionMap)
        ensures
            entries(table) =~= Map::empty(),
    {
        SessionMap { inner: hashbrown::HashMap::new() }
    }

    /// `hashbrown::HashMap::len`: the number of pairs held.
    #[verifier::external_body]
    pub(crate) fn len(&self) -> (n: usize)
        ensures
            n == entries(*self).len(),
    {
        self.inner.len()
    }

    /// `hashbrown::HashMap::get`, with the value copied out: the session
    /// stored under `key`, if there is one.
    #[verifier::external_body]
    pub(crate) fn get(&self, key: &AddrKey) -> (found: Option<usize>)
        ensures
            found == (if entries(*self).contains_key(*key) {
                Some(entries(*self)[*key])
            } else {
                None::<usize>
            }),
    {
        self.inner.get(key).copied()
    }

    /// `hashbrown::HashMap::insert`: afterwards `key` maps to `session` and
    /// every other key is as before; the value replaced, if any, is
    /// returned. Running out of memory is outside this contract, as it is
    /// for `Vec::push`.
    #[verifier::external_body]
    pub(crate) fn insert(&mut self, key: AddrKey, session: usize) -> (previous: Option<usize>)
        ensures
            entries(*final(self)) == entries(*old(self)).insert(key, session),
            previous == (if entries(*old(self)).contains_key(key) {
                Some(entries(*old(self))[key])
            } else {
                None::<usize>
            }),
    {
        self.inner.insert(key, session)
    }
}

} // verus!
