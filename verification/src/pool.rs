//! Leasing IPv4 addresses out of a CGNAT range.
//!
//! The assigner holds the range's first and last address and the set of
//! currently leased addresses. An assignment draws uniformly random
//! candidates inside the usable slice of the range — 16 addresses at each
//! end stay reserved for infrastructure — until a free one is found; the
//! candidate is recorded and handed out as a lease. Releasing a lease
//! removes its address from the set, and a release that finds the address
//! absent reports a double free, which callers must treat as fatal.

use vstd::prelude::*;

use std::collections::HashSet;

verus! {

broadcast use vstd::std_specs::hash::group_hash_axioms;

/// Addresses kept back at each end of the range.
pub const RANGE_RESERVE: u32 = 16;

#[verifier::external_type_specification]
#[verifier::external_body]
pub struct ExIpv4Cidr(cidr_utils::cidr::Ipv4Cidr);

/// The first address of a CIDR network, in network order.
pub uninterp spec fn cidr_first(c: cidr_utils::cidr::Ipv4Cidr) -> u32;

/// The last address of a CIDR network, in network order.
pub uninterp spec fn cidr_last(c: cidr_utils::cidr::Ipv4Cidr) -> u32;

/// Relies on cidr_utils::cidr::Ipv4Cidr::first: the network's prefix as an
/// integer, a pure function of the CIDR value.
#[verifier::external_body]
fn cidr_first_addr(c: &cidr_utils::cidr::Ipv4Cidr) -> (r: u32)
    ensures
        r == cidr_first(*c),
{
    c.first()
}

/// Relies on cidr_utils::cidr::Ipv4Cidr::last: the network's prefix with all
/// host bits set — which is why it is never below `first`.
#[verifier::external_body]
fn cidr_last_addr(c: &cidr_utils::cidr::Ipv4Cidr) -> (r: u32)
    ensures
        r == cidr_last(*c),
        cidr_first(*c) <= r,
{
    c.last()
}

/// Relies on rand's `Rng::gen_range` over a half-open range: a uniformly
/// random value at least `lo` and below `hi`. It panics on an empty range,
/// which the precondition rules out.
#[verifier::external_body]
fn random_in_range(lo: u32, hi: u32) -> (r: u32)
    requires
        lo < hi,
    ensures
        lo <= r < hi,
{
    rand::Rng::gen_range(&mut rand::thread_rng(), lo..hi)
}

/// A leased address: the handle a session holds while it owns the address.
/// Equality and ordering are by address.
#[derive(Clone, Copy, PartialEq, Eq, Structural, PartialOrd, Ord, Hash, Debug)]
pub struct AssignedIpv4Addr {
    addr: u32,
}

impl AssignedIpv4Addr {
    /// The leased address.
    pub closed spec fn spec_addr(&self) -> u32 {
        self.addr
    }

    /// The leased IPv4 address, as a 32-bit value in network order.
    pub fn addr(&self) -> (r: u32)
        ensures
            r == self.spec_addr(),
    {
        self.addr
    }
}

/// One assignment as the set of leased addresses sees it: the address was
/// free before and is leased after, and nothing else changed.
pub open spec fn assign_step(pre: Set<u32>, addr: u32, post: Set<u32>) -> bool {
    !pre.contains(addr) && post == pre.insert(addr)
}

/// One release as the set of leased addresses sees it: the address is gone
/// after, and `freed` reports whether it was actually leased — `false` means
/// a double free.
pub open spec fn release_step(pre: Set<u32>, addr: u32, post: Set<u32>, freed: bool) -> bool {
    freed == pre.contains(addr) && post == pre.remove(addr)
}

/// An IP address assigner over one CIDR range.
pub struct IpAddrAssigner {
    first: u32,
    last: u32,
    table: HashSet<u32>,
}

impl IpAddrAssigner {
    /// The set of currently leased addresses.
    pub closed spec fn leased(&self) -> Set<u32> {
        self.table@
    }

    /// The range's first address.
    pub closed spec fn range_first(&self) -> u32 {
        self.first
    }

    /// The range's last address.
    pub closed spec fn range_last(&self) -> u32 {
        self.last
    }

    /// Whether the usable slice of the range is non-empty.
    pub open spec fn usable(&self) -> bool {
        self.range_first() + 2 * RANGE_RESERVE < self.range_last()
    }

    /// Whether `a` lies in the usable slice of the range.
    pub open spec fn in_usable_slice(&self, a: u32) -> bool {
        self.range_first() + RANGE_RESERVE <= a < self.range_last() - RANGE_RESERVE
    }

    /// Whether some address of the usable slice is still free.
    pub open spec fn has_free(&self) -> bool {
        exists|a: u32| self.in_usable_slice(a) && !self.leased().contains(a)
    }

    /// Creates a new address assigner over `cidr`, with nothing leased.
    pub fn new(cidr: &cidr_utils::cidr::Ipv4Cidr) -> (r: Self)
        ensures
            r.leased() == Set::<u32>::empty(),
            r.range_first() == cidr_first(*cidr),
            r.range_last() == cidr_last(*cidr),
    {
        IpAddrAssigner {
            first: cidr_first_addr(cidr),
            last: cidr_last_addr(cidr),
            table: HashSet::new(),
        }
    }

    /// Whether an assignment can be made right now: the range is usable and
    /// some address of its usable slice is still free. This is the
    /// executable check behind `assign`'s preconditions; a caller that
    /// cannot discharge them makes it first.
    pub fn can_assign(&self) -> (r: bool)
        ensures
            r == (self.usable() && self.has_free()),
    {
        if (self.first as u64) + 2 * (RANGE_RESERVE as u64) >= (self.last as u64) {
            return false;
        }
        let lo = self.first + RANGE_RESERVE;
        let hi = self.last - RANGE_RESERVE;
        let mut a = lo;
        while a < hi
            invariant
                self.usable(),
                lo == self.first + RANGE_RESERVE,
                hi == self.last - RANGE_RESERVE,
                lo <= a <= hi,
                forall|b: u32| lo <= b < a ==> self.leased().contains(b),
            decreases hi - a,
        {
            if !self.table.contains(&a) {
                assert(self.in_usable_slice(a) && !self.leased().contains(a));
                return true;
            }
            a = a + 1;
        }
        proof {
            assert forall|w: u32| self.in_usable_slice(w) implies self.leased().contains(w) by {}
        }
        false
    }

    /// Assigns a new IP address: draws random candidates in the usable slice
    /// until a free one turns up, leases it and returns the handle. Once the
    /// slice is nearly saturated and random probing keeps colliding, the
    /// search falls back to the first free address: unbounded random
    /// retrying would be correct too, but cannot be shown to finish, and the
    /// two only differ when almost every address is taken.
    pub fn assign(&mut self) -> (r: AssignedIpv4Addr)
        requires
            old(self).usable(),
            old(self).has_free(),
        ensures
            final(self).range_first() == old(self).range_first(),
            final(self).range_last() == old(self).range_last(),
            assign_step(old(self).leased(), r.spec_addr(), final(self).leased()),
            old(self).in_usable_slice(r.spec_addr()),
    {
        let lo = self.first + RANGE_RESERVE;
        let hi = self.last - RANGE_RESERVE;
        let mut tries: u32 = 64;
        while tries > 0
            invariant
                self == old(self),
                old(self).usable(),
                lo == self.first + RANGE_RESERVE,
                hi == self.last - RANGE_RESERVE,
            decreases tries,
        {
            let candidate = random_in_range(lo, hi);
            if !self.table.contains(&candidate) {
                self.table.insert(candidate);
                return AssignedIpv4Addr { addr: candidate };
            }
            tries = tries - 1;
        }
        let mut a = lo;
        while a < hi
            invariant
                self == old(self),
                old(self).usable(),
                old(self).has_free(),
                lo == self.first + RANGE_RESERVE,
                hi == self.last - RANGE_RESERVE,
                lo <= a <= hi,
                forall|b: u32| lo <= b < a ==> self.leased().contains(b),
            decreases hi - a,
        {
            if !self.table.contains(&a) {
                self.table.insert(a);
                return AssignedIpv4Addr { addr: a };
            }
            a = a + 1;
        }
        proof {
            let w = choose|w: u32|
                old(self).in_usable_slice(w) && !old(self).leased().contains(w);
            assert(self.leased().contains(w));
            assert(false);
        }
        vstd::pervasive::unreached()
    }

    /// Returns a lease's address to the pool: `true` when it was leased,
    /// `false` on a double free, which the caller must treat as fatal.
    pub fn release(&mut self, lease: AssignedIpv4Addr) -> (r: bool)
        ensures
            final(self).range_first() == old(self).range_first(),
            final(self).range_last() == old(self).range_last(),
            release_step(old(self).leased(), lease.spec_addr(), final(self).leased(), r),
    {
        self.table.remove(&lease.addr)
    }
}

proof fn lemma_tables_monotone(tables: Seq<Set<u32>>, addrs: Seq<u32>, i: int, j: int)
    requires
        tables.len() == addrs.len() + 1,
        forall|k: int|
            0 <= k < addrs.len() ==> assign_step(tables[k], #[trigger] addrs[k], tables[k + 1]),
        0 <= i <= j <= addrs.len(),
    ensures
        tables[i].subset_of(tables[j]),
    decreases j - i,
{
    if i < j {
        lemma_tables_monotone(tables, addrs, i, j - 1);
        assert(assign_step(tables[j - 1], addrs[j - 1], tables[j]));
    }
}

/// Law: a chain of assignments — each one starting from the set of leases
/// the previous one left behind — hands out pairwise distinct addresses.
pub proof fn lemma_assign_chain_distinct(tables: Seq<Set<u32>>, addrs: Seq<u32>)
    requires
        tables.len() == addrs.len() + 1,
        forall|k: int|
            0 <= k < addrs.len() ==> assign_step(tables[k], #[trigger] addrs[k], tables[k + 1]),
    ensures
        forall|i: int, j: int| 0 <= i < j < addrs.len() ==> addrs[i] != addrs[j],
{
    assert forall|i: int, j: int| 0 <= i < j < addrs.len() implies addrs[i] != addrs[j] by {
        assert(assign_step(tables[i], addrs[i], tables[i + 1]));
        assert(assign_step(tables[j], addrs[j], tables[j + 1]));
        lemma_tables_monotone(tables, addrs, i + 1, j);
        assert(tables[i + 1].contains(addrs[i]));
    }
}

/// Law: releasing a leased address frees it — afterwards it is not leased,
/// so an assignment may hand it out again — and a second release of the same
/// address reports the double free.
pub proof fn lemma_release_frees_and_detects_double_free(
    pre: Set<u32>,
    addr: u32,
    mid: Set<u32>,
    post: Set<u32>,
    freed_first: bool,
    freed_second: bool,
)
    requires
        pre.contains(addr),
        release_step(pre, addr, mid, freed_first),
        release_step(mid, addr, post, freed_second),
    ensures
        freed_first,
        !mid.contains(addr),
        !freed_second,
        assign_step(mid, addr, mid.insert(addr)),
{
}

} // verus!
