//! Ages, freshness and expiry, and the mathematical model of the store's
//! operations over a map from keys to entries.

use vstd::prelude::*;

verus! {

/// A stored value together with the clock reading taken when it was
/// inserted.
#[derive(Debug)]
pub struct Entry<V> {
    pub value: V,
    pub inserted_at: u128,
}

/// The age at `now` of something inserted at `inserted_at`. A reading that
/// lies before the insertion counts as an age of zero.
pub open spec fn age(now: u128, inserted_at: u128) -> nat {
    if now >= inserted_at {
        (now - inserted_at) as nat
    } else {
        0
    }
}

/// Reads treat an entry as present while its age does not exceed the
/// time-to-live: an age equal to it is still fresh.
pub open spec fn fresh(inserted_at: u128, now: u128, ttl: u128) -> bool {
    age(now, inserted_at) <= ttl
}

/// The sweep drops an entry once its age has reached the time-to-live: an
/// age equal to it is already expired.
pub open spec fn expired(inserted_at: u128, now: u128, ttl: u128) -> bool {
    age(now, inserted_at) >= ttl
}

/// The entry that an insertion of `value` at `now` stores.
pub open spec fn entry<V>(value: V, now: u128) -> Entry<V> {
    Entry { value, inserted_at: now }
}

/// What a read of `key` at `now` finds in `m`.
pub open spec fn lookup<K, V>(m: Map<K, Entry<V>>, key: K, now: u128, ttl: u128) -> Option<V> {
    if m.contains_key(key) && fresh(m[key].inserted_at, now, ttl) {
        Some(m[key].value)
    } else {
        None
    }
}

/// The value that removing `key` from `m` hands back, whatever its age.
pub open spec fn taken<K, V>(m: Map<K, Entry<V>>, key: K) -> Option<V> {
    if m.contains_key(key) {
        Some(m[key].value)
    } else {
        None
    }
}

/// What a sweep at `now` leaves of `m`: the entries that have not expired.
pub open spec fn swept<K, V>(m: Map<K, Entry<V>>, now: u128, ttl: u128) -> Map<K, Entry<V>> {
    Map::new(|k: K| m.contains_key(k) && !expired(m[k].inserted_at, now, ttl), |k: K| m[k])
}

/// Whether `handed` is an independent copy of what is `stored`: both absent,
/// or both present with `handed` a clone of `stored`.
pub open spec fn copy_of<V: Clone>(stored: Option<V>, handed: Option<V>) -> bool {
    match (stored, handed) {
        (Some(a), Some(b)) => cloned(a, b),
        (None, None) => true,
        _ => false,
    }
}

/// How a memoised call at `key` relates the store before and after it to
/// the value it hands back. Where a read at `looked_at` finds a value, a copy
/// of it is handed back and the store is unchanged. Where it finds none,
/// `compute` yields the value handed back, and a copy of it is stored under
/// `key` as inserted at `stored_at`.
pub open spec fn memoized<K, V: Clone, F: FnOnce() -> V>(
    before: Map<K, Entry<V>>,
    after: Map<K, Entry<V>>,
    key: K,
    compute: F,
    handed: V,
    looked_at: u128,
    stored_at: u128,
    ttl: u128,
) -> bool {
    match lookup(before, key, looked_at, ttl) {
        Some(found) => cloned(found, handed) && after == before,
        None => compute.ensures((), handed) && exists|stored: V|
            cloned(handed, stored) && after == #[trigger] before.insert(
                key,
                entry(stored, stored_at),
            ),
    }
}

/// Computes [`age`], clamped at zero for a reading before the insertion.
pub fn elapsed_since(inserted_at: u128, now: u128) -> (a: u128)
    ensures
        a == age(now, inserted_at),
{
    if now >= inserted_at {
        now - inserted_at
    } else {
        0
    }
}

/// Decides [`fresh`]: the rule that reads apply.
pub fn is_fresh(inserted_at: u128, now: u128, ttl: u128) -> (b: bool)
    ensures
        b == fresh(inserted_at, now, ttl),
{
    elapsed_since(inserted_at, now) <= ttl
}

/// Decides [`expired`]: the rule that the sweep applies.
pub fn is_expired(inserted_at: u128, now: u128, ttl: u128) -> (b: bool)
    ensures
        b == expired(inserted_at, now, ttl),
{
    elapsed_since(inserted_at, now) >= ttl
}

/// Whether a sweep at `now` keeps `e`: it does unless `e` has expired.
pub fn survives<V>(e: &Entry<V>, now: u128, ttl: u128) -> (b: bool)
    ensures
        b == !expired(e.inserted_at, now, ttl),
{
    !is_expired(e.inserted_at, now, ttl)
}

} // verus!
