//! The deduplication cache: a bounded set of message ids, kept in order of
//! recency by `lru::LruCache`.
//!
//! Gossip can bring one message over several paths. The cache remembers the
//! ids that were seen, newest first, and forgets the oldest when it is full.

use vstd::prelude::*;
use lru::LruCache;
use std::num::NonZeroUsize;

verus! {

/// `lru::LruCache`, a map that evicts its least recently used entry.
#[verifier::external_type_specification]
#[verifier::external_body]
#[verifier::reject_recursive_types(K)]
#[verifier::reject_recursive_types(V)]
#[verifier::reject_recursive_types(S)]
pub struct ExLruCache<K, V, S>(LruCache<K, V, S>);

/// The hasher that `LruCache` uses unless told otherwise.
#[verifier::external_type_specification]
#[verifier::external_body]
pub struct ExLruHasher(lru::DefaultHasher);

/// The keys of a cache, the most recently used first.
pub uninterp spec fn lru_keys(c: LruCache<u128, ()>) -> Seq<u128>;

/// The number of entries that a cache was made to hold.
pub uninterp spec fn lru_capacity(c: LruCache<u128, ()>) -> nat;

/// `LruCache::new` makes an empty cache that holds at most `cap` entries.
/// The capacity is handed over as a `NonZeroUsize`, hence `cap > 0`.
#[verifier::external_body]
fn lru_new(cap: usize) -> (c: LruCache<u128, ()>)
    requires
        cap > 0,
    ensures
        lru_keys(c) == Seq::<u128>::empty(),
        lru_capacity(c) == cap,
{
    LruCache::new(NonZeroUsize::new(cap).unwrap())
}

/// `LruCache::contains` tells whether the key is in the cache. It does not
/// count as a use: the order of recency stays as it is.
#[verifier::external_body]
fn lru_contains(c: &LruCache<u128, ()>, k: u128) -> (found: bool)
    ensures
        found == lru_keys(*c).contains(k),
{
    c.contains(&k)
}

/// What `LruCache::put` makes of the keys: the key that was put is now the
/// most recent. If it was there already it only moves to the front; if not,
/// and the cache was full, the least recent key gives way.
pub open spec fn keys_after_put(keys: Seq<u128>, cap: nat, k: u128) -> Seq<u128> {
    if keys.contains(k) {
        seq![k] + keys.remove_value(k)
    } else if keys.len() >= cap {
        seq![k] + keys.drop_last()
    } else {
        seq![k] + keys
    }
}

/// `LruCache::put` enters the key as the most recently used one and keeps
/// the capacity. It returns the value that the key had, if it had one.
/// With integer keys and unit values nothing in it can panic.
#[verifier::external_body]
fn lru_put(c: &mut LruCache<u128, ()>, k: u128) -> (previous: Option<()>)
    ensures
        lru_keys(*final(c)) == keys_after_put(lru_keys(*old(c)), lru_capacity(*old(c)), k),
        lru_capacity(*final(c)) == lru_capacity(*old(c)),
        previous is Some <==> lru_keys(*old(c)).contains(k),
    no_unwind
{
    c.put(k, ())
}

/// The number of ids that a node remembers.
pub const DEDUP_CAPACITY: usize = 1000;

/// The set of message ids that were seen lately.
pub struct DedupCache {
    seen: LruCache<u128, ()>,
}

impl View for DedupCache {
    type V = Seq<u128>;

    /// The remembered ids, the one seen last first.
    closed spec fn view(&self) -> Seq<u128> {
        lru_keys(self.seen)
    }
}

/// The remembered ids after `id` is seen for the first time: `id` in front,
/// and the oldest gone if there was no room.
pub open spec fn after_first_sight(ids: Seq<u128>, cap: nat, id: u128) -> Seq<u128> {
    if ids.len() >= cap {
        seq![id] + ids.drop_last()
    } else {
        seq![id] + ids
    }
}

impl DedupCache {
    /// The number of ids that the cache holds at most.
    pub closed spec fn capacity(&self) -> nat {
        lru_capacity(self.seen)
    }

    /// No id is remembered twice, and never more than the capacity.
    #[verifier::type_invariant]
    pub open spec fn well_formed(&self) -> bool {
        &&& self@.no_duplicates()
        &&& self@.len() <= self.capacity()
        &&& self.capacity() > 0
    }

    /// An empty cache of the default capacity.
    pub fn new() -> (c: Self)
        ensures
            c@ == Seq::<u128>::empty(),
            c.capacity() == DEDUP_CAPACITY,
            c.well_formed(),
    {
        DedupCache { seen: lru_new(DEDUP_CAPACITY) }
    }

    /// An empty cache that remembers at most `cap` ids.
    pub fn with_capacity(cap: usize) -> (c: Self)
        requires
            cap > 0,
        ensures
            c@ == Seq::<u128>::empty(),
            c.capacity() == cap,
            c.well_formed(),
    {
        DedupCache { seen: lru_new(cap) }
    }

    /// Whether `id` is remembered. Asking changes nothing.
    pub fn contains(&self, id: u128) -> (found: bool)
        ensures
            found == self@.contains(id),
    {
        lru_contains(&self.seen, id)
    }

    /// Sees `id`: tells whether it is new, and remembers it if so.
    ///
    /// An id that is remembered already is left where it is; being seen
    /// again does not renew it.
    pub fn first_sight(&mut self, id: u128) -> (fresh: bool)
        ensures
            fresh == !old(self)@.contains(id),
            final(self)@ == if fresh {
                after_first_sight(old(self)@, old(self).capacity(), id)
            } else {
                old(self)@
            },
            final(self).capacity() == old(self).capacity(),
            final(self).well_formed(),
            final(self)@.contains(id),
    {
        proof {
            use_type_invariant(&*self);
        }
        if lru_contains(&self.seen, id) {
            return false;
        }
        let ghost before = self@;
        let _ = lru_put(&mut self.seen, id);
        proof {
            lemma_first_sight_keeps_order(before, self.capacity(), id);
        }
        true
    }
}

/// Remembering a new id keeps the ids distinct and within the capacity,
/// and the new id is among them.
pub proof fn lemma_first_sight_keeps_order(ids: Seq<u128>, cap: nat, id: u128)
    requires
        ids.no_duplicates(),
        ids.len() <= cap,
        cap > 0,
        !ids.contains(id),
    ensures
        after_first_sight(ids, cap, id).no_duplicates(),
        after_first_sight(ids, cap, id).len() <= cap,
        after_first_sight(ids, cap, id).contains(id),
        after_first_sight(ids, cap, id)[0] == id,
        forall|other: u128|
            after_first_sight(ids, cap, id).contains(other) ==> other == id || ids.contains(
                other,
            ),
{
    let kept = if ids.len() >= cap {
        ids.drop_last()
    } else {
        ids
    };
    let after = after_first_sight(ids, cap, id);
    assert(after =~= seq![id] + kept);
    assert forall|i: int| 0 <= i < kept.len() implies kept[i] == ids[i] by {}
    assert forall|i: int, j: int| 0 <= i < after.len() && 0 <= j < after.len() && i != j implies after[i]
        != after[j] by {
        if i == 0 {
            assert(after[j] == ids[j - 1]);
            assert(ids.contains(ids[j - 1]));
        } else if j == 0 {
            assert(after[i] == ids[i - 1]);
            assert(ids.contains(ids[i - 1]));
        } else {
            assert(after[i] == ids[i - 1] && after[j] == ids[j - 1]);
        }
    }
    assert(after[0] == id);
    assert forall|other: u128| after.contains(other) implies other == id || ids.contains(
        other,
    ) by {
        let i = choose|i: int| 0 <= i < after.len() && after[i] == other;
        if i > 0 {
            assert(after[i] == ids[i - 1]);
        }
    }
}

} // verus!
