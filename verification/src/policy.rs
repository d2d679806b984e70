//! The egress filter: which client-originated packets may reach the TUN
//! device.
//!
//! A packet passes only when its source is the session's assigned address,
//! its destination is a plain public unicast address, and — when it carries
//! TCP or UDP and the destination port can be read — the port is not banned:
//! UDP to port 443 is suppressed, ports on the black list are dropped, and
//! with the whitelist toggle on only whitelisted ports pass.

use vstd::prelude::*;

use crate::packet::{
    dst_port, ipv4_dst, ipv4_parseable, ipv4_protocol, ipv4_src, parse_dst_port, read_be32,
    PROTO_UDP,
};

verus! {

broadcast use vstd::std_specs::hash::group_hash_axioms;

/// The destination port that carries QUIC over UDP.
pub const QUIC_PORT: u16 = 443;

/// Whether an address lies in 127.0.0.0/8.
pub open spec fn is_loopback(a: u32) -> bool {
    a >> 24 == 127
}

/// Whether an address lies in one of the RFC 1918 private ranges.
pub open spec fn is_private(a: u32) -> bool {
    a >> 24 == 10 || a >> 20 == 0xac1 || a >> 16 == 0xc0a8
}

/// Destinations no client packet may have: loopback, private, unspecified
/// and broadcast addresses.
pub open spec fn reserved_dst(a: u32) -> bool {
    is_loopback(a) || is_private(a) || a == 0 || a == 0xffff_ffffu32
}

/// The externally supplied port tables: a black list that always applies and
/// a white list that applies when the toggle is on.
pub struct PortPolicy {
    black_ports: std::collections::HashSet<u16>,
    white_ports: std::collections::HashSet<u16>,
    port_whitelist: bool,
}

/// Whether a TCP or UDP destination port is acceptable under the tables.
pub open spec fn port_allowed(proto: u8, port: u16, black: Set<u16>, white: Set<u16>, whitelist_on: bool) -> bool {
    &&& !(proto == PROTO_UDP && port == QUIC_PORT)
    &&& !black.contains(port)
    &&& (whitelist_on ==> white.contains(port))
}

/// Whether the egress filter lets the IPv4 packet `pkt` of the session
/// holding address `assigned` through to the TUN device.
pub open spec fn egress_allowed(
    assigned: u32,
    pkt: Seq<u8>,
    black: Set<u16>,
    white: Set<u16>,
    whitelist_on: bool,
) -> bool
    recommends
        ipv4_parseable(pkt),
{
    &&& ipv4_src(pkt) == assigned
    &&& !reserved_dst(ipv4_dst(pkt))
    &&& match dst_port(pkt) {
        Some(p) => port_allowed(ipv4_protocol(pkt), p, black, white, whitelist_on),
        None => true,
    }
}

impl PortPolicy {
    /// The black list as a set.
    pub closed spec fn black(&self) -> Set<u16> {
        self.black_ports@
    }

    /// The white list as a set.
    pub closed spec fn white(&self) -> Set<u16> {
        self.white_ports@
    }

    /// Whether the white list applies.
    pub closed spec fn whitelist_on(&self) -> bool {
        self.port_whitelist
    }

    /// Packages the externally supplied tables.
    pub fn new(
        black_ports: std::collections::HashSet<u16>,
        white_ports: std::collections::HashSet<u16>,
        port_whitelist: bool,
    ) -> (r: Self)
        ensures
            r.black() == black_ports@,
            r.white() == white_ports@,
            r.whitelist_on() == port_whitelist,
    {
        PortPolicy { black_ports, white_ports, port_whitelist }
    }

    /// Whether this policy lets the packet through.
    pub fn allows(&self, assigned: u32, pkt: &[u8]) -> (r: bool)
        requires
            ipv4_parseable(pkt@),
        ensures
            r == egress_allowed(assigned, pkt@, self.black(), self.white(), self.whitelist_on()),
    {
        let src = read_be32(pkt, 12);
        if src != assigned {
            return false;
        }
        let dst = read_be32(pkt, 16);
        if dst >> 24 == 127 || dst >> 24 == 10 || dst >> 20 == 0xac1 || dst >> 16 == 0xc0a8
            || dst == 0 || dst == 0xffff_ffffu32 {
            return false;
        }
        let proto = pkt[9];
        match parse_dst_port(pkt) {
            Some(port) => {
                if proto == PROTO_UDP && port == QUIC_PORT {
                    return false;
                }
                if self.black_ports.contains(&port) {
                    return false;
                }
                if self.port_whitelist && !self.white_ports.contains(&port) {
                    return false;
                }
                true
            },
            None => true,
        }
    }
}

/// Law: a packet whose source is not the session's assigned address never
/// passes the egress filter.
pub proof fn lemma_egress_requires_own_source(
    assigned: u32,
    pkt: Seq<u8>,
    black: Set<u16>,
    white: Set<u16>,
    whitelist_on: bool,
)
    ensures
        egress_allowed(assigned, pkt, black, white, whitelist_on) ==> ipv4_src(pkt) == assigned,
{
}

/// Law: a packet to a loopback, private, unspecified or broadcast
/// destination never passes the egress filter.
pub proof fn lemma_egress_blocks_reserved_dst(
    assigned: u32,
    pkt: Seq<u8>,
    black: Set<u16>,
    white: Set<u16>,
    whitelist_on: bool,
)
    ensures
        reserved_dst(ipv4_dst(pkt)) ==> !egress_allowed(assigned, pkt, black, white, whitelist_on),
{
}

/// Law: a UDP packet whose destination port reads 443 never passes the
/// egress filter, whatever the port tables hold.
pub proof fn lemma_egress_blocks_quic(
    assigned: u32,
    pkt: Seq<u8>,
    black: Set<u16>,
    white: Set<u16>,
    whitelist_on: bool,
)
    requires
        ipv4_protocol(pkt) == PROTO_UDP,
        dst_port(pkt) == Some(QUIC_PORT),
    ensures
        !egress_allowed(assigned, pkt, black, white, whitelist_on),
{
}

/// Law: the QUIC suppression alone never drops a TCP packet — a TCP packet
/// to port 443 passes whenever source, destination and the port tables
/// allow it.
pub proof fn lemma_quic_rule_spares_tcp(
    assigned: u32,
    pkt: Seq<u8>,
    black: Set<u16>,
    white: Set<u16>,
    whitelist_on: bool,
)
    requires
        ipv4_protocol(pkt) != PROTO_UDP,
        ipv4_src(pkt) == assigned,
        !reserved_dst(ipv4_dst(pkt)),
        match dst_port(pkt) {
            Some(p) => !black.contains(p) && (whitelist_on ==> white.contains(p)),
            None => true,
        },
    ensures
        egress_allowed(assigned, pkt, black, white, whitelist_on),
{
}

} // verus!
