//! The store itself: a hash map from keys to entries, a time-to-live, and
//! the clock epoch against which insertion times are measured.
//!
//! Every operation that reads the clock has a companion, named with `_at`,
//! that takes the reading as an argument and whose contract is exact.
//! The contracts speak of the store's view, a `Map` from keys to entries, and
//! hold for key types that obey the hash-table key model.

use crate::expiry::{
    copy_of, entry, is_fresh, lookup, memoized, survives, swept, taken, Entry,
};
use crate::clock::duration_nanos;
use std::collections::HashMap;
use std::hash::Hash;
use std::time::{Duration, Instant};
use vstd::prelude::*;
use vstd::std_specs::hash::obeys_key_model;

verus! {

/// A key/value store whose entries lapse once they are older than a fixed
/// time-to-live.
#[derive(Debug)]
pub struct TtlCache<K, V> {
    map: HashMap<K, Entry<V>>,
    ttl: u128,
    epoch: Instant,
}

impl<K, V> View for TtlCache<K, V> {
    type V = Map<K, Entry<V>>;

    /// Every entry that the store holds, expired or not.
    closed spec fn view(&self) -> Map<K, Entry<V>> {
        self.map@
    }
}

/// `HashMap::retain`, handed [`survives`] at `now` as its predicate. Trusted
/// to leave exactly the entries for which the predicate holds, each
/// unchanged, which is what [`swept`] describes.
#[verifier::external_body]
fn retain_unexpired<K, V>(map: &mut HashMap<K, Entry<V>>, now: u128, ttl: u128)
    ensures
        obeys_key_model::<K>() ==> final(map)@ == swept(old(map)@, now, ttl),
{
    map.retain(|_, e| survives(e, now, ttl));
}

impl<K: Eq + Hash, V: Clone> TtlCache<K, V> {
    /// The time-to-live in nanoseconds, fixed when the store was made.
    pub closed spec fn ttl(&self) -> u128 {
        self.ttl
    }

    /// An empty store whose entries live for `ttl`.
    pub fn new(ttl: Duration) -> (cache: Self)
        ensures
            cache@ == Map::<K, Entry<V>>::empty(),
            cache.ttl() == duration_nanos(ttl),
    {
        Self::with_ttl_nanos(ttl.as_nanos())
    }

    /// An empty store whose entries live for `ttl_nanos` nanoseconds.
    pub fn with_ttl_nanos(ttl_nanos: u128) -> (cache: Self)
        ensures
            cache@ == Map::<K, Entry<V>>::empty(),
            cache.ttl() == ttl_nanos,
    {
        TtlCache { map: HashMap::new(), ttl: ttl_nanos, epoch: Instant::now() }
    }

    /// Nanoseconds on the clock since the store was made.
    fn now(&self) -> u128 {
        self.epoch.elapsed().as_nanos()
    }

    /// Stores `value` under `key` as inserted at `now`, replacing whatever
    /// the key held before.
    pub fn insert_at(&mut self, key: K, value: V, now: u128)
        ensures
            final(self).ttl() == old(self).ttl(),
            obeys_key_model::<K>() ==> final(self)@ == old(self)@.insert(key, entry(value, now)),
    {
        self.map.insert(key, Entry { value, inserted_at: now });
    }

    /// Stores `value` under `key` as inserted at the current clock reading.
    pub fn insert(&mut self, key: K, value: V)
        ensures
            final(self).ttl() == old(self).ttl(),
            obeys_key_model::<K>() ==> exists|now: u128|
                final(self)@ == old(self)@.insert(key, #[trigger] entry(value, now)),
    {
        let now: u128 = self.now();
        self.insert_at(key, value, now);
    }

    /// A copy of the value under `key` if the key is present and its entry
    /// is fresh at `now`.
    fn peek_at(&self, key: &K, now: u128) -> (result: Option<V>)
        ensures
            obeys_key_model::<K>() ==> copy_of(lookup(self@, *key, now, self.ttl()), result),
    {
        match self.map.get(key) {
            Some(e) => {
                if is_fresh(e.inserted_at, now, self.ttl) {
                    Some(e.value.clone())
                } else {
                    None
                }
            },
            None => None,
        }
    }

    /// A read at the clock reading `now`: a copy of the value under `key`
    /// if the key is present and its entry is fresh, and nothing otherwise.
    /// The store is left as it is.
    pub fn get_at(&self, key: K, now: u128) -> (result: Option<V>)
        ensures
            obeys_key_model::<K>() ==> copy_of(lookup(self@, key, now, self.ttl()), result),
    {
        self.peek_at(&key, now)
    }

    /// A read at the current clock reading.
    pub fn get(&self, key: K) -> (result: Option<V>)
        ensures
            obeys_key_model::<K>() ==> exists|now: u128|
                copy_of(#[trigger] lookup(self@, key, now, self.ttl()), result),
    {
        let now: u128 = self.now();
        self.get_at(key, now)
    }

    /// A memoised call with both clock readings given: the value that a read
    /// of `key` at `looked_at` finds, or else the value that `compute`
    /// yields, a copy of which is then stored under `key` as inserted at
    /// `stored_at`.
    pub fn get_or_insert_with_at<F: FnOnce() -> V>(
        &mut self,
        key: K,
        compute: F,
        looked_at: u128,
        stored_at: u128,
    ) -> (result: V)
        requires
            compute.requires(()),
        ensures
            final(self).ttl() == old(self).ttl(),
            obeys_key_model::<K>() ==> memoized(
                old(self)@,
                final(self)@,
                key,
                compute,
                result,
                looked_at,
                stored_at,
                old(self).ttl(),
            ),
    {
        match self.peek_at(&key, looked_at) {
            Some(found) => found,
            None => {
                let result = compute();
                let stored = result.clone();
                self.insert_at(key, stored, stored_at);
                result
            },
        }
    }

    /// A memoised call: the value that a read of `key` finds now, or else
    /// the value that `compute` yields, a copy of which is stored under
    /// `key` as inserted at the clock reading taken once `compute` is done.
    pub fn get_or_insert_with<F: FnOnce() -> V>(&mut self, key: K, compute: F) -> (result: V)
        requires
            compute.requires(()),
        ensures
            final(self).ttl() == old(self).ttl(),
            obeys_key_model::<K>() ==> exists|looked_at: u128, stored_at: u128| #[trigger]
                memoized(
                    old(self)@,
                    final(self)@,
                    key,
                    compute,
                    result,
                    looked_at,
                    stored_at,
                    old(self).ttl(),
                ),
    {
        let looked_at: u128 = self.now();
        match self.peek_at(&key, looked_at) {
            Some(found) => {
                proof {
                    if obeys_key_model::<K>() {
                        assert(memoized(
                            old(self)@,
                            self@,
                            key,
                            compute,
                            found,
                            looked_at,
                            looked_at,
                            self.ttl(),
                        ));
                    }
                }
                found
            },
            None => {
                let result = compute();
                let stored_at: u128 = self.now();
                let stored = result.clone();
                self.insert_at(key, stored, stored_at);
                proof {
                    if obeys_key_model::<K>() {
                        assert(memoized(
                            old(self)@,
                            self@,
                            key,
                            compute,
                            result,
                            looked_at,
                            stored_at,
                            self.ttl(),
                        ));
                    }
                }
                result
            },
        }
    }

    /// Deletes the entry under `key` and hands back its value, whatever its
    /// age.
    pub fn remove(&mut self, key: K) -> (result: Option<V>)
        ensures
            final(self).ttl() == old(self).ttl(),
            obeys_key_model::<K>() ==> final(self)@ == old(self)@.remove(key),
            obeys_key_model::<K>() ==> result == taken(old(self)@, key),
    {
        match self.map.remove(&key) {
            Some(e) => Some(e.value),
            None => None,
        }
    }

    /// Deletes every entry.
    pub fn clear(&mut self)
        ensures
            final(self).ttl() == old(self).ttl(),
            final(self)@ == Map::<K, Entry<V>>::empty(),
    {
        self.map.clear();
    }

    /// Whether the store holds no entry at all. Expired entries that no
    /// sweep has dropped yet count as held.
    pub fn is_empty(&self) -> (result: bool)
        ensures
            result <==> forall|k: K| !self@.contains_key(k),
    {
        let result: bool = self.map.is_empty();
        proof {
            assert(self@ == self.map@);
            if result {
                assert(self.map@.dom() =~= Set::<K>::empty());
            } else if forall|k: K| !self.map@.contains_key(k) {
                assert(self.map@.dom() =~= Set::<K>::empty());
            }
        }
        result
    }

    /// Drops every entry that has expired at `now` and keeps the others
    /// unchanged.
    pub fn sweep_at(&mut self, now: u128)
        ensures
            final(self).ttl() == old(self).ttl(),
            obeys_key_model::<K>() ==> final(self)@ == swept(old(self)@, now, old(self).ttl()),
    {
        retain_unexpired(&mut self.map, now, self.ttl);
    }

    /// Drops every entry that has expired at the current clock reading.
    pub fn sweep(&mut self)
        ensures
            final(self).ttl() == old(self).ttl(),
            obeys_key_model::<K>() ==> exists|now: u128|
                final(self)@ == #[trigger] swept(old(self)@, now, old(self).ttl()),
    {
        let now: u128 = self.now();
        self.sweep_at(now);
    }
}

} // verus!
