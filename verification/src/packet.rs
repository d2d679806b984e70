//! Reading the IPv4, TCP and UDP header fields that the datapath needs.
//!
//! A frame is treated as an IPv4 packet as soon as it is long enough to hold
//! the fixed part of an IPv4 header; the egress filter and the demultiplexer
//! only ever read the protocol, the two addresses and (for TCP and UDP) the
//! destination port, so nothing more is parsed.

use vstd::prelude::*;

verus! {

/// Fixed part of an IPv4 header; a shorter frame is not an IPv4 packet.
pub const IPV4_MIN_LEN: usize = 20;

/// IP protocol number of TCP.
pub const PROTO_TCP: u8 = 6;

/// IP protocol number of UDP.
pub const PROTO_UDP: u8 = 17;

/// Fixed part of a TCP header.
pub const TCP_MIN_LEN: usize = 20;

/// Length of a UDP header.
pub const UDP_HEADER_LEN: usize = 8;

/// Big-endian 16-bit value at offset `i`.
pub open spec fn be16_at(s: Seq<u8>, i: int) -> u16
    recommends
        0 <= i,
        i + 2 <= s.len(),
{
    (s[i] * 0x100 + s[i + 1]) as u16
}

/// Big-endian 32-bit value at offset `i`.
pub open spec fn be32_at(s: Seq<u8>, i: int) -> u32
    recommends
        0 <= i,
        i + 4 <= s.len(),
{
    (s[i] * 0x100_0000 + s[i + 1] * 0x1_0000 + s[i + 2] * 0x100 + s[i + 3]) as u32
}

/// Whether a frame parses as an IPv4 packet.
pub open spec fn ipv4_parseable(s: Seq<u8>) -> bool {
    s.len() >= IPV4_MIN_LEN
}

/// Source address of an IPv4 packet, as a 32-bit value in network order.
pub open spec fn ipv4_src(s: Seq<u8>) -> u32
    recommends
        ipv4_parseable(s),
{
    be32_at(s, 12)
}

/// Destination address of an IPv4 packet.
pub open spec fn ipv4_dst(s: Seq<u8>) -> u32
    recommends
        ipv4_parseable(s),
{
    be32_at(s, 16)
}

/// Protocol field of an IPv4 packet.
pub open spec fn ipv4_protocol(s: Seq<u8>) -> u8
    recommends
        ipv4_parseable(s),
{
    s[9]
}

/// Length in bytes that the IHL field claims for the header: the field counts
/// 32-bit words.
pub open spec fn ipv4_header_len(s: Seq<u8>) -> int
    recommends
        ipv4_parseable(s),
{
    (s[0] & 0x0f) * 4
}

/// Total-length field of an IPv4 packet.
pub open spec fn ipv4_total_len(s: Seq<u8>) -> u16
    recommends
        ipv4_parseable(s),
{
    be16_at(s, 2)
}

/// Offset at which the transport header starts: what the IHL field claims,
/// but never inside the fixed 20-byte header.
pub open spec fn ipv4_payload_off(s: Seq<u8>) -> int
    recommends
        ipv4_parseable(s),
{
    if ipv4_header_len(s) < IPV4_MIN_LEN {
        IPV4_MIN_LEN as int
    } else {
        ipv4_header_len(s)
    }
}

/// Number of payload bytes available to the transport parser: the
/// total-length field bounds the payload, and so does the frame itself.
pub open spec fn ipv4_payload_len(s: Seq<u8>) -> int
    recommends
        ipv4_parseable(s),
{
    let start = ipv4_payload_off(s);
    let claimed = if ipv4_total_len(s) >= ipv4_header_len(s) {
        ipv4_total_len(s) - ipv4_header_len(s)
    } else {
        0
    };
    if s.len() <= start {
        0
    } else if start + claimed <= s.len() {
        claimed
    } else {
        s.len() - start
    }
}

/// Destination port of a TCP or UDP packet carried in the IPv4 packet `s`,
/// `None` for any other protocol or when the payload is too short to hold
/// the transport header.
pub open spec fn dst_port(s: Seq<u8>) -> Option<u16>
    recommends
        ipv4_parseable(s),
{
    let off = ipv4_payload_off(s);
    if ipv4_protocol(s) == PROTO_TCP && ipv4_payload_len(s) >= TCP_MIN_LEN {
        Some(be16_at(s, off + 2))
    } else if ipv4_protocol(s) == PROTO_UDP && ipv4_payload_len(s) >= UDP_HEADER_LEN {
        Some(be16_at(s, off + 2))
    } else {
        None
    }
}

/// Reads the big-endian 16-bit value at offset `i`.
pub fn read_be16(pkt: &[u8], i: usize) -> (r: u16)
    requires
        i + 2 <= pkt@.len(),
    ensures
        r == be16_at(pkt@, i as int),
{
    (pkt[i] as u16) * 0x100 + (pkt[i + 1] as u16)
}

/// Reads the big-endian 32-bit value at offset `i`.
pub fn read_be32(pkt: &[u8], i: usize) -> (r: u32)
    requires
        i + 4 <= pkt@.len(),
    ensures
        r == be32_at(pkt@, i as int),
{
    (pkt[i] as u32) * 0x100_0000 + (pkt[i + 1] as u32) * 0x1_0000 + (pkt[i + 2] as u32) * 0x100
        + (pkt[i + 3] as u32)
}

/// Whether the frame is long enough to parse as IPv4.
pub fn is_ipv4(pkt: &[u8]) -> (r: bool)
    ensures
        r == ipv4_parseable(pkt@),
{
    pkt.len() >= IPV4_MIN_LEN
}

/// Destination address of an IPv4 frame, `None` when it does not parse.
pub fn parse_ipv4_dst(pkt: &[u8]) -> (r: Option<u32>)
    ensures
        r == if ipv4_parseable(pkt@) {
            Some(ipv4_dst(pkt@))
        } else {
            None::<u32>
        },
{
    if pkt.len() >= IPV4_MIN_LEN {
        Some(read_be32(pkt, 16))
    } else {
        None
    }
}

/// Destination port of the TCP or UDP packet carried in `pkt`.
pub fn parse_dst_port(pkt: &[u8]) -> (r: Option<u16>)
    requires
        ipv4_parseable(pkt@),
    ensures
        r == dst_port(pkt@),
{
    let proto = pkt[9];
    let header_len = ((pkt[0] & 0x0f) as usize) * 4;
    let off = if header_len < IPV4_MIN_LEN {
        IPV4_MIN_LEN
    } else {
        header_len
    };
    let total_len = read_be16(pkt, 2) as usize;
    let claimed = if total_len >= header_len {
        total_len - header_len
    } else {
        0
    };
    let avail = if pkt.len() <= off {
        0
    } else if off + claimed <= pkt.len() {
        claimed
    } else {
        pkt.len() - off
    };
    if proto == PROTO_TCP && avail >= TCP_MIN_LEN {
        Some(read_be16(pkt, off + 2))
    } else if proto == PROTO_UDP && avail >= UDP_HEADER_LEN {
        Some(read_be16(pkt, off + 2))
    } else {
        None
    }
}

} // verus!
