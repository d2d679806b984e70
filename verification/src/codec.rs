//! The wire codec for messages on the multiplexed transport.
//!
//! A message is a tagged union: a little-endian 32-bit tag in declaration
//! order, then the fields. Addresses travel as their four octets in network
//! order; a payload travels as a little-endian 64-bit byte count followed by
//! the raw bytes. Bytes after a complete message are ignored, and a client
//! hello may carry fields after the tag, which the exit ignores.

use vstd::prelude::*;

verus! {

/// Tag of a client's address-assignment request.
pub const TAG_CLIENT_HELLO: u32 = 0;

/// Tag of the exit's handshake response.
pub const TAG_SERVER_HELLO: u32 = 1;

/// Tag of a raw IPv4 packet.
pub const TAG_PAYLOAD: u32 = 2;

/// A message of the VPN protocol, as the exit handles it.
pub enum VpnMsg {
    /// A client asks for an address; any fields after the tag are ignored.
    ClientHello,
    /// The exit answers with the leased address and the gateway address.
    ServerHello { client_ip: u32, gateway: u32 },
    /// A raw IPv4 packet.
    Payload(Vec<u8>),
}

/// The mathematical form of a message.
pub enum MsgModel {
    ClientHello,
    ServerHello { client_ip: u32, gateway: u32 },
    Payload(Seq<u8>),
}

impl View for VpnMsg {
    type V = MsgModel;

    open spec fn view(&self) -> MsgModel {
        match self {
            VpnMsg::ClientHello => MsgModel::ClientHello,
            VpnMsg::ServerHello { client_ip, gateway } => MsgModel::ServerHello {
                client_ip: *client_ip,
                gateway: *gateway,
            },
            VpnMsg::Payload(b) => MsgModel::Payload(b@),
        }
    }
}

/// The four bytes of `x` in little-endian order.
pub open spec fn le32(x: u32) -> Seq<u8> {
    seq![x as u8, (x >> 8) as u8, (x >> 16) as u8, (x >> 24) as u8]
}

/// The eight bytes of `x` in little-endian order.
pub open spec fn le64(x: u64) -> Seq<u8> {
    seq![
        x as u8,
        (x >> 8) as u8,
        (x >> 16) as u8,
        (x >> 24) as u8,
        (x >> 32) as u8,
        (x >> 40) as u8,
        (x >> 48) as u8,
        (x >> 56) as u8,
    ]
}

/// The four bytes of `x` in big-endian (network) order: the octets of an
/// address.
pub open spec fn be32_bytes(x: u32) -> Seq<u8> {
    seq![(x >> 24) as u8, (x >> 16) as u8, (x >> 8) as u8, x as u8]
}

/// Little-endian 32-bit value at offset `i`.
pub open spec fn le32_at(s: Seq<u8>, i: int) -> u32
    recommends
        0 <= i,
        i + 4 <= s.len(),
{
    (s[i] + s[i + 1] * 0x100 + s[i + 2] * 0x1_0000 + s[i + 3] * 0x100_0000) as u32
}

/// Little-endian 64-bit value at offset `i`.
pub open spec fn le64_at(s: Seq<u8>, i: int) -> u64
    recommends
        0 <= i,
        i + 8 <= s.len(),
{
    (s[i] + s[i + 1] * 0x100 + s[i + 2] * 0x1_0000 + s[i + 3] * 0x100_0000 + s[i + 4]
        * 0x1_0000_0000 + s[i + 5] * 0x100_0000_0000 + s[i + 6] * 0x1_0000_0000_0000 + s[i + 7]
        * 0x100_0000_0000_0000) as u64
}

/// The encoding of a message.
pub open spec fn spec_encode(m: MsgModel) -> Seq<u8> {
    match m {
        MsgModel::ClientHello => le32(TAG_CLIENT_HELLO),
        MsgModel::ServerHello { client_ip, gateway } => le32(TAG_SERVER_HELLO) + be32_bytes(
            client_ip,
        ) + be32_bytes(gateway),
        MsgModel::Payload(b) => le32(TAG_PAYLOAD) + le64(b.len() as u64) + b,
    }
}

/// The message a byte string decodes to, `None` when it holds none.
pub open spec fn spec_decode(s: Seq<u8>) -> Option<MsgModel> {
    if s.len() < 4 {
        None
    } else {
        let tag = le32_at(s, 0);
        if tag == TAG_CLIENT_HELLO {
            Some(MsgModel::ClientHello)
        } else if tag == TAG_SERVER_HELLO {
            if s.len() >= 12 {
                Some(
                    MsgModel::ServerHello {
                        client_ip: crate::packet::be32_at(s, 4),
                        gateway: crate::packet::be32_at(s, 8),
                    },
                )
            } else {
                None
            }
        } else if tag == TAG_PAYLOAD {
            if s.len() >= 12 && 12 + le64_at(s, 4) <= s.len() {
                Some(MsgModel::Payload(s.subrange(12, 12 + le64_at(s, 4))))
            } else {
                None
            }
        } else {
            None
        }
    }
}

/// Appends the little-endian bytes of `x`.
fn push_le32(v: &mut Vec<u8>, x: u32)
    ensures
        final(v)@ == old(v)@ + le32(x),
{
    v.push(x as u8);
    v.push((x >> 8) as u8);
    v.push((x >> 16) as u8);
    v.push((x >> 24) as u8);
    assert(v@ =~= old(v)@ + le32(x));
}

/// Appends the little-endian bytes of `x`.
fn push_le64(v: &mut Vec<u8>, x: u64)
    ensures
        final(v)@ == old(v)@ + le64(x),
{
    v.push(x as u8);
    v.push((x >> 8) as u8);
    v.push((x >> 16) as u8);
    v.push((x >> 24) as u8);
    v.push((x >> 32) as u8);
    v.push((x >> 40) as u8);
    v.push((x >> 48) as u8);
    v.push((x >> 56) as u8);
    assert(v@ =~= old(v)@ + le64(x));
}

/// Appends the octets of `x` in network order.
fn push_be32(v: &mut Vec<u8>, x: u32)
    ensures
        final(v)@ == old(v)@ + be32_bytes(x),
{
    v.push((x >> 24) as u8);
    v.push((x >> 16) as u8);
    v.push((x >> 8) as u8);
    v.push(x as u8);
    assert(v@ =~= old(v)@ + be32_bytes(x));
}

/// Encodes a message for the wire.
pub fn encode_msg(m: &VpnMsg) -> (r: Vec<u8>)
    ensures
        r@ == spec_encode(m@),
{
    let mut v: Vec<u8> = Vec::new();
    match m {
        VpnMsg::ClientHello => {
            push_le32(&mut v, TAG_CLIENT_HELLO);
        },
        VpnMsg::ServerHello { client_ip, gateway } => {
            push_le32(&mut v, TAG_SERVER_HELLO);
            push_be32(&mut v, *client_ip);
            push_be32(&mut v, *gateway);
        },
        VpnMsg::Payload(b) => {
            push_le32(&mut v, TAG_PAYLOAD);
            push_le64(&mut v, b.len() as u64);
            let mut tail = vstd::slice::slice_to_vec(b.as_slice());
            v.append(&mut tail);
        },
    }
    assert(v@ =~= spec_encode(m@));
    v
}

proof fn lemma_le32_prefix(x: u32, rest: Seq<u8>)
    ensures
        le32_at(le32(x) + rest, 0) == x,
{
    let s = le32(x) + rest;
    assert(s[0] == x as u8 && s[1] == (x >> 8) as u8 && s[2] == (x >> 16) as u8 && s[3] == (x
        >> 24) as u8);
    assert((x as u8) + ((x >> 8) as u8) * 0x100 + ((x >> 16) as u8) * 0x1_0000 + ((x >> 24) as u8)
        * 0x100_0000 == x) by (bit_vector);
}

proof fn lemma_be32_at_of(pre: Seq<u8>, x: u32, rest: Seq<u8>)
    ensures
        crate::packet::be32_at(pre + be32_bytes(x) + rest, pre.len() as int) == x,
{
    let s = pre + be32_bytes(x) + rest;
    let i = pre.len() as int;
    assert(s[i] == (x >> 24) as u8 && s[i + 1] == (x >> 16) as u8 && s[i + 2] == (x >> 8) as u8
        && s[i + 3] == x as u8);
    assert(((x >> 24) as u8) * 0x100_0000 + ((x >> 16) as u8) * 0x1_0000 + ((x >> 8) as u8) * 0x100
        + (x as u8) == x) by (bit_vector);
}

proof fn lemma_le64_at_of(pre: Seq<u8>, x: u64, rest: Seq<u8>)
    ensures
        le64_at(pre + le64(x) + rest, pre.len() as int) == x,
{
    let s = pre + le64(x) + rest;
    let i = pre.len() as int;
    assert(s[i] == x as u8 && s[i + 1] == (x >> 8) as u8 && s[i + 2] == (x >> 16) as u8 && s[i + 3]
        == (x >> 24) as u8 && s[i + 4] == (x >> 32) as u8 && s[i + 5] == (x >> 40) as u8 && s[i + 6]
        == (x >> 48) as u8 && s[i + 7] == (x >> 56) as u8);
    assert((x as u8) + ((x >> 8) as u8) * 0x100 + ((x >> 16) as u8) * 0x1_0000 + ((x >> 24) as u8)
        * 0x100_0000 + ((x >> 32) as u8) * 0x1_0000_0000 + ((x >> 40) as u8) * 0x100_0000_0000 + ((
    x >> 48) as u8) * 0x1_0000_0000_0000 + ((x >> 56) as u8) * 0x100_0000_0000_0000 == x)
        by (bit_vector);
}

/// Law: decoding an encoded message yields the message back.
pub proof fn lemma_codec_round_trip(m: MsgModel)
    requires
        m matches MsgModel::Payload(b) ==> b.len() <= u64::MAX,
    ensures
        spec_decode(spec_encode(m)) == Some(m),
{
    let s = spec_encode(m);
    match m {
        MsgModel::ClientHello => {
            assert(le32(TAG_CLIENT_HELLO) + Seq::<u8>::empty() =~= s);
            lemma_le32_prefix(TAG_CLIENT_HELLO, Seq::<u8>::empty());
        },
        MsgModel::ServerHello { client_ip, gateway } => {
            let rest = be32_bytes(client_ip) + be32_bytes(gateway);
            assert(le32(TAG_SERVER_HELLO) + rest =~= s);
            lemma_le32_prefix(TAG_SERVER_HELLO, rest);
            assert(le32(TAG_SERVER_HELLO) + be32_bytes(client_ip) + be32_bytes(gateway) =~= s);
            lemma_be32_at_of(le32(TAG_SERVER_HELLO), client_ip, be32_bytes(gateway));
            let pre = le32(TAG_SERVER_HELLO) + be32_bytes(client_ip);
            assert(pre + be32_bytes(gateway) + Seq::<u8>::empty() =~= s);
            lemma_be32_at_of(pre, gateway, Seq::<u8>::empty());
        },
        MsgModel::Payload(b) => {
            let n = b.len() as u64;
            let rest = le64(n) + b;
            assert(le32(TAG_PAYLOAD) + rest =~= s);
            lemma_le32_prefix(TAG_PAYLOAD, rest);
            lemma_le64_at_of(le32(TAG_PAYLOAD), n, b);
            assert(le32(TAG_PAYLOAD) + le64(n) + b =~= s);
            assert(le64_at(s, 4) == n);
            assert(s.subrange(12, 12 + n as int) =~= b);
        },
    }
}

/// Reads the little-endian 32-bit value at offset `i`.
fn read_le32(pkt: &[u8], i: usize) -> (r: u32)
    requires
        i + 4 <= pkt@.len(),
    ensures
        r == le32_at(pkt@, i as int),
{
    (pkt[i] as u32) + (pkt[i + 1] as u32) * 0x100 + (pkt[i + 2] as u32) * 0x1_0000 + (pkt[i
        + 3] as u32) * 0x100_0000
}

/// Reads the little-endian 64-bit value at offset `i`.
fn read_le64(pkt: &[u8], i: usize) -> (r: u64)
    requires
        i + 8 <= pkt@.len(),
    ensures
        r == le64_at(pkt@, i as int),
{
    (pkt[i] as u64) + (pkt[i + 1] as u64) * 0x100 + (pkt[i + 2] as u64) * 0x1_0000 + (pkt[i
        + 3] as u64) * 0x100_0000 + (pkt[i + 4] as u64) * 0x1_0000_0000 + (pkt[i + 5] as u64)
        * 0x100_0000_0000 + (pkt[i + 6] as u64) * 0x1_0000_0000_0000 + (pkt[i + 7] as u64)
        * 0x100_0000_0000_0000
}

/// Decodes a wire message, `None` when the bytes hold none.
pub fn decode_msg(raw: &[u8]) -> (r: Option<VpnMsg>)
    ensures
        match spec_decode(raw@) {
            None => r is None,
            Some(m) => r matches Some(v) && v@ == m,
        },
{
    if raw.len() < 4 {
        return None;
    }
    let tag = read_le32(raw, 0);
    if tag == TAG_CLIENT_HELLO {
        Some(VpnMsg::ClientHello)
    } else if tag == TAG_SERVER_HELLO {
        if raw.len() >= 12 {
            let client_ip = crate::packet::read_be32(raw, 4);
            let gateway = crate::packet::read_be32(raw, 8);
            Some(VpnMsg::ServerHello { client_ip, gateway })
        } else {
            None
        }
    } else if tag == TAG_PAYLOAD {
        if raw.len() >= 12 {
            let n = read_le64(raw, 4);
            if n <= (raw.len() - 12) as u64 {
                let body = vstd::slice::slice_subrange(raw, 12, 12 + n as usize);
                Some(VpnMsg::Payload(vstd::slice::slice_to_vec(body)))
            } else {
                None
            }
        } else {
            None
        }
    } else {
        None
    }
}

} // verus!
