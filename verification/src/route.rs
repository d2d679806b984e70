//! The process-wide route table, and the TUN demultiplexer's forwarding
//! decision.
//!
//! The table maps a leased IPv4 address to the owning session's bounded
//! ingress channel. It is a bounded cache so that a flood of stale inserts
//! cannot grow it without limit. The cache applies its eviction policy
//! lazily, so its behaviour is only exact while it has never been over its
//! bound: the table therefore counts its entries, refuses an insert that
//! would grow it past the bound, and keeps that discipline as its invariant —
//! under it, nothing is ever evicted. The demultiplexer reads a frame from
//! the TUN device, parses the destination, looks up the owning session and
//! enqueues the frame without blocking — a full channel only costs that one
//! frame and never stalls the reader or other sessions.

use vstd::prelude::*;

use crate::packet::{ipv4_dst, ipv4_parseable, parse_ipv4_dst};

verus! {

broadcast use vstd::set::group_set_axioms;

#[verifier::external_type_specification]
#[verifier::external_body]
#[verifier::reject_recursive_types(K)]
#[verifier::reject_recursive_types(V)]
#[verifier::reject_recursive_types(S)]
pub struct ExCache<K, V, S>(moka::sync::Cache<K, V, S>);

#[verifier::external_type_specification]
#[verifier::external_body]
#[verifier::reject_recursive_types(T)]
pub struct ExSender<T>(smol::channel::Sender<T>);

/// How many route entries the table holds at most.
pub const ROUTE_TABLE_CAPACITY: u64 = 1_000_000;

/// The set of addresses the route cache currently maps.
pub uninterp spec fn cache_routes(c: moka::sync::Cache<u32, smol::channel::Sender<Vec<u8>>>) -> Set<
    u32,
>;

/// The bound the route cache was created with.
pub uninterp spec fn cache_bound(c: moka::sync::Cache<u32, smol::channel::Sender<Vec<u8>>>) -> u64;

/// Relies on moka::sync::Cache::new: a cache that starts empty and records
/// `cap` as the bound past which its eviction policy engages.
#[verifier::external_body]
fn cache_new(cap: u64) -> (c: moka::sync::Cache<u32, smol::channel::Sender<Vec<u8>>>)
    ensures
        cache_routes(c) == Set::<u32>::empty(),
        cache_bound(c) == cap,
{
    moka::sync::Cache::new(cap)
}

/// Relies on moka::sync::Cache::insert: the entry is stored under its key,
/// replacing any prior one. The cache evicts entries, possibly during a later
/// call, once it has ever grown past its bound; the precondition — the key is
/// already present or there is room — is how this library keeps every cache
/// it makes at or under its bound for its whole life, so that no eviction
/// ever runs.
#[verifier::external_body]
fn cache_insert(
    c: &mut moka::sync::Cache<u32, smol::channel::Sender<Vec<u8>>>,
    k: u32,
    v: smol::channel::Sender<Vec<u8>>,
)
    requires
        cache_routes(*old(c)).contains(k) || cache_routes(*old(c)).len() < cache_bound(*old(c)),
    ensures
        cache_bound(*final(c)) == cache_bound(*old(c)),
        cache_routes(*final(c)) == cache_routes(*old(c)).insert(k),
{
    c.insert(k, v)
}

/// Relies on moka::sync::Cache::get: a clone of the stored channel when the
/// key is present, nothing otherwise.
#[verifier::external_body]
fn cache_get(c: &moka::sync::Cache<u32, smol::channel::Sender<Vec<u8>>>, k: u32) -> (r: Option<
    smol::channel::Sender<Vec<u8>>,
>)
    ensures
        r.is_some() == cache_routes(*c).contains(k),
{
    c.get(&k)
}

/// Relies on moka::sync::Cache::invalidate: the entry under the key is
/// discarded from the cache's map at once. Nothing else changes as long as
/// the cache has never been over its bound, which the precondition — kept as
/// the table's invariant — guarantees for every cache this library makes.
#[verifier::external_body]
fn cache_invalidate(c: &mut moka::sync::Cache<u32, smol::channel::Sender<Vec<u8>>>, k: u32)
    requires
        cache_routes(*old(c)).len() <= cache_bound(*old(c)),
    ensures
        cache_bound(*final(c)) == cache_bound(*old(c)),
        cache_routes(*final(c)) == cache_routes(*old(c)).remove(k),
{
    c.invalidate(&k)
}

/// Relies on smol::channel::Sender::try_send: a non-blocking enqueue that
/// fails when the channel is full or closed.
#[verifier::external_body]
fn try_send_frame(s: &smol::channel::Sender<Vec<u8>>, frame: Vec<u8>) -> bool {
    s.try_send(frame).is_ok()
}

/// The process-wide table from leased address to the owning session's
/// ingress channel.
pub struct RouteTable {
    cache: moka::sync::Cache<u32, smol::channel::Sender<Vec<u8>>>,
    count: u64,
    cap: u64,
}

impl RouteTable {
    /// The set of currently routed addresses.
    pub closed spec fn routed(&self) -> Set<u32> {
        cache_routes(self.cache)
    }

    /// The bound on the number of entries.
    pub closed spec fn bound(&self) -> u64 {
        cache_bound(self.cache)
    }

    /// The table's invariant: the entry count is tracked exactly and never
    /// exceeds the bound, so the cache never evicts anything.
    pub closed spec fn wf(&self) -> bool {
        &&& self.routed().finite()
        &&& self.count == self.routed().len()
        &&& self.routed().len() <= self.bound()
        &&& self.cap == self.bound()
    }

    /// Creates the table, empty, bounded by `ROUTE_TABLE_CAPACITY`.
    pub fn new() -> (r: Self)
        ensures
            r.wf(),
            r.routed() == Set::<u32>::empty(),
            r.bound() == ROUTE_TABLE_CAPACITY,
    {
        RouteTable {
            cache: cache_new(ROUTE_TABLE_CAPACITY),
            count: 0,
            cap: ROUTE_TABLE_CAPACITY,
        }
    }

    /// Publishes `addr -> sender`, overwriting any prior entry for `addr`.
    /// Returns whether the entry was published: a new address is refused
    /// when the table is full, so that the table never outgrows its bound.
    pub fn insert(&mut self, addr: u32, sender: smol::channel::Sender<Vec<u8>>) -> (published:
        bool)
        requires
            old(self).wf(),
        ensures
            final(self).wf(),
            final(self).bound() == old(self).bound(),
            published == (old(self).routed().contains(addr) || old(self).routed().len() < old(
                self,
            ).bound()),
            published ==> final(self).routed() == old(self).routed().insert(addr),
            !published ==> final(self).routed() == old(self).routed(),
    {
        let present = self.get(addr).is_some();
        if present || self.count < self.cap {
            cache_insert(&mut self.cache, addr, sender);
            if !present {
                self.count = self.count + 1;
            }
            true
        } else {
            false
        }
    }

    /// The ingress channel of the session owning `addr`, when one is routed.
    pub fn get(&self, addr: u32) -> (r: Option<smol::channel::Sender<Vec<u8>>>)
        ensures
            r.is_some() == self.routed().contains(addr),
    {
        cache_get(&self.cache, addr)
    }

    /// Withdraws the entry for `addr`; packets for it are dropped from then
    /// on.
    pub fn invalidate(&mut self, addr: u32)
        requires
            old(self).wf(),
        ensures
            final(self).wf(),
            final(self).bound() == old(self).bound(),
            final(self).routed() == old(self).routed().remove(addr),
    {
        let present = self.get(addr).is_some();
        cache_invalidate(&mut self.cache, addr);
        if present {
            self.count = self.count - 1;
        }
    }
}

/// What became of one frame read from the TUN device.
pub enum DemuxOutcome {
    /// Not an IPv4 packet: dropped silently.
    NotIpv4,
    /// No session owns the destination: dropped.
    NoRoute(u32),
    /// Enqueued on the owning session's ingress channel.
    Delivered(u32),
    /// The owning session's channel was full or closed: the frame is
    /// dropped, and nothing else is affected.
    ChannelRejected(u32),
}

/// Forwards one TUN frame: parses the destination address, looks up the
/// owning session and enqueues the frame without blocking. Whether the
/// owning session accepts the frame depends only on its own channel; a full
/// channel costs exactly this frame.
pub fn demux_frame(table: &RouteTable, frame: &[u8]) -> (r: DemuxOutcome)
    ensures
        match r {
            DemuxOutcome::NotIpv4 => !ipv4_parseable(frame@),
            DemuxOutcome::NoRoute(d) => ipv4_parseable(frame@) && d == ipv4_dst(frame@)
                && !table.routed().contains(d),
            DemuxOutcome::Delivered(d) => ipv4_parseable(frame@) && d == ipv4_dst(frame@)
                && table.routed().contains(d),
            DemuxOutcome::ChannelRejected(d) => ipv4_parseable(frame@) && d == ipv4_dst(frame@)
                && table.routed().contains(d),
        },
{
    match parse_ipv4_dst(frame) {
        None => DemuxOutcome::NotIpv4,
        Some(d) => {
            match table.get(d) {
                None => DemuxOutcome::NoRoute(d),
                Some(sender) => {
                    let owned = vstd::slice::slice_to_vec(frame);
                    if try_send_frame(&sender, owned) {
                        DemuxOutcome::Delivered(d)
                    } else {
                        DemuxOutcome::ChannelRejected(d)
                    }
                },
            }
        },
    }
}

} // verus!
