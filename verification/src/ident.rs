//! Stable per-peer identifiers for the transparent proxy helper.
//!
//! The downstream proxy loop wants one client identifier for all
//! simultaneous connections from the same peer, without a persistent store:
//! a bounded cache from peer address to a random 64-bit value. The cache
//! applies its eviction policy lazily, so its behaviour is only exact while
//! it has never been over its bound: the table counts its entries, stops
//! remembering new peers once full, and keeps that discipline as its
//! invariant — under it, nothing is ever evicted. Peer addresses are carried
//! as 128-bit values so that both IP families fit.

use vstd::prelude::*;

verus! {

broadcast use vstd::set::group_set_axioms, vstd::map::group_map_axioms;

/// How many peers the identifier cache remembers at most.
pub const CLIENT_ID_CAPACITY: u64 = 1_000_000;

/// The empty identifier map.
pub open spec fn no_ids() -> Map<u128, u64> {
    Map::empty()
}

/// The identifiers the cache currently stores, by peer address.
pub uninterp spec fn cache_ids(c: moka::sync::Cache<u128, u64>) -> Map<u128, u64>;

/// The bound the identifier cache was created with.
pub uninterp spec fn cache_ids_bound(c: moka::sync::Cache<u128, u64>) -> u64;

/// Relies on moka::sync::Cache::new: a cache that starts empty and records
/// `cap` as the bound past which its eviction policy engages.
#[verifier::external_body]
fn id_cache_new(cap: u64) -> (r: moka::sync::Cache<u128, u64>)
    ensures
        cache_ids(r) == no_ids(),
        cache_ids_bound(r) == cap,
{
    moka::sync::Cache::new(cap)
}

/// Relies on moka::sync::Cache::get: a copy of the stored identifier when
/// the peer is known, nothing otherwise.
#[verifier::external_body]
fn id_cache_get(c: &moka::sync::Cache<u128, u64>, k: u128) -> (r: Option<u64>)
    ensures
        r == if cache_ids(*c).contains_key(k) {
            Some(cache_ids(*c)[k])
        } else {
            None::<u64>
        },
{
    c.get(&k)
}

/// Relies on moka::sync::Cache::insert: the entry is stored under its key,
/// replacing any prior one. The cache evicts entries, possibly during a later
/// call, once it has ever grown past its bound; the precondition — the key is
/// already present or there is room — is how this library keeps every cache
/// it makes at or under its bound for its whole life, so that no eviction
/// ever runs.
#[verifier::external_body]
fn id_cache_insert(c: &mut moka::sync::Cache<u128, u64>, k: u128, v: u64)
    requires
        cache_ids(*old(c)).contains_key(k) || cache_ids(*old(c)).dom().len() < cache_ids_bound(
            *old(c),
        ),
    ensures
        cache_ids_bound(*final(c)) == cache_ids_bound(*old(c)),
        cache_ids(*final(c)) == cache_ids(*old(c)).insert(k, v),
{
    c.insert(k, v)
}

/// Relies on rand's `Rng::gen`: a fresh 64-bit value; nothing is assumed of
/// it.
#[verifier::external_body]
fn random_u64() -> u64 {
    rand::Rng::gen(&mut rand::thread_rng())
}

/// The bounded cache handing each peer a stable random identifier.
pub struct ClientIdTable {
    cache: moka::sync::Cache<u128, u64>,
    count: u64,
    cap: u64,
}

impl ClientIdTable {
    /// The stored identifiers, by peer address.
    pub closed spec fn ids(&self) -> Map<u128, u64> {
        cache_ids(self.cache)
    }

    /// The bound on the number of remembered peers.
    pub closed spec fn bound(&self) -> u64 {
        cache_ids_bound(self.cache)
    }

    /// The table's invariant: the entry count is tracked exactly and never
    /// exceeds the bound, so the cache never evicts anything.
    pub closed spec fn wf(&self) -> bool {
        &&& self.ids().dom().finite()
        &&& self.count == self.ids().dom().len()
        &&& self.ids().dom().len() <= self.bound()
        &&& self.cap == self.bound()
    }

    /// Creates the cache, empty, bounded by `CLIENT_ID_CAPACITY`.
    pub fn new() -> (r: Self)
        ensures
            r.wf(),
            r.ids() == no_ids(),
            r.bound() == CLIENT_ID_CAPACITY,
    {
        ClientIdTable { cache: id_cache_new(CLIENT_ID_CAPACITY), count: 0, cap: CLIENT_ID_CAPACITY }
    }

    /// The peer's identifier: the remembered one when the peer is known,
    /// otherwise a fresh random one, remembered while the cache has room.
    pub fn client_id(&mut self, peer: u128) -> (r: u64)
        requires
            old(self).wf(),
        ensures
            final(self).wf(),
            final(self).bound() == old(self).bound(),
            old(self).ids().contains_key(peer) ==> r == old(self).ids()[peer] && final(self).ids()
                == old(self).ids(),
            !old(self).ids().contains_key(peer) && old(self).ids().dom().len() < old(self).bound()
                ==> final(self).ids() == old(self).ids().insert(peer, r),
            !old(self).ids().contains_key(peer) && old(self).ids().dom().len() >= old(
                self,
            ).bound() ==> final(self).ids() == old(self).ids(),
    {
        match id_cache_get(&self.cache, peer) {
            Some(v) => v,
            None => {
                let fresh = random_u64();
                if self.count < self.cap {
                    id_cache_insert(&mut self.cache, peer, fresh);
                    self.count = self.count + 1;
                }
                fresh
            },
        }
    }
}

} // verus!
