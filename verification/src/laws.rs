//! What holds of the store's operations taken together, stated over the
//! model that their contracts use: the view of a store as a map from keys
//! to entries, and the functions `lookup`, `taken` and `swept` on it.

use crate::expiry::{age, entry, expired, lookup, swept, taken, Entry};
use vstd::prelude::*;

verus! {

/// A read at the very clock reading of an insertion finds the inserted
/// value, whatever the time-to-live.
pub proof fn lemma_get_immediately_after_insert<K, V>(
    m: Map<K, Entry<V>>,
    k: K,
    v: V,
    at: u128,
    ttl: u128,
)
    ensures
        lookup(m.insert(k, entry(v, at)), k, at, ttl) == Some(v),
{
}

/// A read finds an inserted value as long as its age does not exceed the
/// time-to-live, and finds nothing once the age is strictly greater.
pub proof fn lemma_get_until_ttl<K, V>(
    m: Map<K, Entry<V>>,
    k: K,
    v: V,
    at: u128,
    later: u128,
    ttl: u128,
)
    ensures
        age(later, at) <= ttl ==> lookup(m.insert(k, entry(v, at)), k, later, ttl) == Some(v),
        age(later, at) > ttl ==> lookup(m.insert(k, entry(v, at)), k, later, ttl) is None,
{
}

/// An insertion replaces whatever the key held and restarts its age: only
/// the last value written under a key is visible.
pub proof fn lemma_insert_overwrites<K, V>(
    m: Map<K, Entry<V>>,
    k: K,
    first: Entry<V>,
    v: V,
    at: u128,
    ttl: u128,
)
    ensures
        m.insert(k, first).insert(k, entry(v, at)) == m.insert(k, entry(v, at)),
        lookup(m.insert(k, first).insert(k, entry(v, at)), k, at, ttl) == Some(v),
{
    assert(m.insert(k, first).insert(k, entry(v, at)) =~= m.insert(k, entry(v, at)));
}

/// Insertions under distinct keys do not disturb one another: both values
/// are to be found afterwards, and the order of the two insertions does not
/// matter.
pub proof fn lemma_inserts_of_distinct_keys<K, V>(
    m: Map<K, Entry<V>>,
    k1: K,
    e1: Entry<V>,
    k2: K,
    e2: Entry<V>,
    now: u128,
    ttl: u128,
)
    requires
        k1 != k2,
    ensures
        m.insert(k1, e1).insert(k2, e2) == m.insert(k2, e2).insert(k1, e1),
        lookup(m.insert(k1, e1).insert(k2, e2), k1, now, ttl) == lookup(
            m.insert(k1, e1),
            k1,
            now,
            ttl,
        ),
        lookup(m.insert(k1, e1).insert(k2, e2), k2, now, ttl) == lookup(
            m.insert(k2, e2),
            k2,
            now,
            ttl,
        ),
{
    assert(m.insert(k1, e1).insert(k2, e2) =~= m.insert(k2, e2).insert(k1, e1));
}

/// Removing a key right after an insertion under it hands back the inserted
/// value, and no later read finds the key.
pub proof fn lemma_remove_after_insert<K, V>(
    m: Map<K, Entry<V>>,
    k: K,
    v: V,
    at: u128,
    now: u128,
    ttl: u128,
)
    ensures
        taken(m.insert(k, entry(v, at)), k) == Some(v),
        lookup(m.insert(k, entry(v, at)).remove(k), k, now, ttl) is None,
{
}

/// Removing a key that the store does not hold hands back nothing and
/// leaves the store as it was.
pub proof fn lemma_remove_absent<K, V>(m: Map<K, Entry<V>>, k: K)
    requires
        !m.contains_key(k),
    ensures
        taken(m, k) is None,
        m.remove(k) == m,
{
    assert(m.remove(k) =~= m);
}

/// A store that holds no entry answers every read with nothing.
pub proof fn lemma_empty_store_finds_nothing<K, V>(k: K, now: u128, ttl: u128)
    ensures
        !Map::<K, Entry<V>>::empty().contains_key(k),
        lookup(Map::<K, Entry<V>>::empty(), k, now, ttl) is None,
{
}

/// A sweep keeps exactly the entries that have not expired, each as it was.
pub proof fn lemma_sweep_keeps_unexpired<K, V>(m: Map<K, Entry<V>>, k: K, now: u128, ttl: u128)
    ensures
        swept(m, now, ttl).contains_key(k) <==> m.contains_key(k) && !expired(
            m[k].inserted_at,
            now,
            ttl,
        ),
        swept(m, now, ttl).contains_key(k) ==> swept(m, now, ttl)[k] == m[k],
{
}

/// Once every entry has reached the time-to-live, a single sweep leaves the
/// store empty without any removal by hand.
pub proof fn lemma_sweep_reclaims_all<K, V>(m: Map<K, Entry<V>>, now: u128, ttl: u128)
    requires
        forall|k: K| m.contains_key(k) ==> age(now, #[trigger] m[k].inserted_at) >= ttl,
    ensures
        swept(m, now, ttl) == Map::<K, Entry<V>>::empty(),
{
    assert(swept(m, now, ttl) =~= Map::<K, Entry<V>>::empty());
}

/// A sweep cannot be told from reads made strictly after it: with a
/// time-to-live above zero, what it dropped would no longer have been found.
pub proof fn lemma_sweep_unseen_by_later_reads<K, V>(
    m: Map<K, Entry<V>>,
    k: K,
    now: u128,
    later: u128,
    ttl: u128,
)
    requires
        ttl > 0,
        later > now,
    ensures
        lookup(swept(m, now, ttl), k, later, ttl) == lookup(m, k, later, ttl),
{
}

} // verus!
