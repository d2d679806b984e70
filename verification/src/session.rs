//! The per-session decision steps of the packet pump.
//!
//! A session couples a client's unreliable transport stream to its leased
//! address. The surrounding process runs two loops — transport to TUN, and
//! ingress channel to transport — and each loop's whole decision is one
//! function here: what a received datagram means and what to do about it,
//! how a kernel-returned frame is framed for the transport, how large the
//! ingress channel must be, how bytes are accounted, and under which metrics
//! key they are reported.

use vstd::prelude::*;

use crate::codec::{decode_msg, encode_msg, spec_decode, spec_encode, MsgModel, VpnMsg};
use crate::packet::{ipv4_dst, ipv4_parseable, is_ipv4};
use crate::policy::{egress_allowed, PortPolicy};

verus! {

/// The gateway address handed to every client: 100.64.0.1.
pub const GATEWAY_ADDR: u32 = 0x6440_0001;

/// Slots in the ingress channel of a session without a rate limit.
pub const UNLIMITED_INGRESS_CAPACITY: usize = 65536;

/// The capacity rule for a session's ingress channel.
pub open spec fn spec_ingress_capacity(unlimited: bool, limit: u32) -> usize {
    if unlimited {
        UNLIMITED_INGRESS_CAPACITY
    } else {
        (limit / 4) as usize
    }
}

/// The capacity of a session's ingress channel: 65536 slots when the rate
/// limiter is unlimited, otherwise a quarter of its limit.
pub fn ingress_capacity(unlimited: bool, limit: u32) -> (r: usize)
    ensures
        r == spec_ingress_capacity(unlimited, limit),
{
    if unlimited {
        UNLIMITED_INGRESS_CAPACITY
    } else {
        (limit / 4) as usize
    }
}

/// The handshake response for a session holding `assigned`.
pub open spec fn server_hello_msg(assigned: u32) -> MsgModel {
    MsgModel::ServerHello { client_ip: assigned, gateway: GATEWAY_ADDR }
}

/// What the session does with one datagram received from the transport.
pub enum IngressAction {
    /// Answer a client hello with this encoded server hello.
    Reply(Vec<u8>),
    /// Write this raw IPv4 packet to the TUN device.
    WriteTun(Vec<u8>),
    /// Drop the datagram: an unparseable packet, or one the egress filter
    /// refuses.
    Ignore,
    /// End the session: the bytes held no message, or one that only the
    /// exit may send.
    Fatal,
}

/// One transport datagram's outcome: the action to take, and how many
/// payload bytes to account for sampled statistics.
pub struct IngressOutcome {
    pub action: IngressAction,
    pub accounted: usize,
}

/// Decides what one datagram from the client means. A client hello is
/// answered with the server hello carrying the session's address and the
/// gateway; a payload is written to the TUN device exactly when it parses as
/// IPv4 and passes the egress filter; anything else ends the session.
pub fn ingress_step(assigned: u32, raw: &[u8], policy: &PortPolicy) -> (r: IngressOutcome)
    ensures
        spec_decode(raw@) is None ==> r.action is Fatal && r.accounted == 0,
        spec_decode(raw@) matches Some(MsgModel::ClientHello) ==> r.accounted == 0 && (r.action
            matches IngressAction::Reply(v) && v@ == spec_encode(server_hello_msg(assigned))),
        spec_decode(raw@) matches Some(MsgModel::ServerHello { .. }) ==> r.action is Fatal
            && r.accounted == 0,
        spec_decode(raw@) matches Some(MsgModel::Payload(b)) ==> r.accounted == b.len() && (if (
        ipv4_parseable(b) && egress_allowed(
            assigned,
            b,
            policy.black(),
            policy.white(),
            policy.whitelist_on(),
        )) {
            r.action matches IngressAction::WriteTun(w) && w@ == b
        } else {
            r.action is Ignore
        }),
{
    match decode_msg(raw) {
        None => IngressOutcome { action: IngressAction::Fatal, accounted: 0 },
        Some(VpnMsg::ClientHello) => {
            let reply = encode_msg(
                &VpnMsg::ServerHello { client_ip: assigned, gateway: GATEWAY_ADDR },
            );
            IngressOutcome { action: IngressAction::Reply(reply), accounted: 0 }
        },
        Some(VpnMsg::ServerHello { .. }) => IngressOutcome {
            action: IngressAction::Fatal,
            accounted: 0,
        },
        Some(VpnMsg::Payload(b)) => {
            let n = b.len();
            if is_ipv4(b.as_slice()) && policy.allows(assigned, b.as_slice()) {
                IngressOutcome { action: IngressAction::WriteTun(b), accounted: n }
            } else {
                IngressOutcome { action: IngressAction::Ignore, accounted: n }
            }
        },
    }
}

/// Frames one kernel-returned packet as a payload message for the
/// transport. The demultiplexer only routes frames addressed to the session;
/// the caller checks the destination before calling and treats a mismatch as
/// a broken routing invariant.
pub fn egress_frame(assigned: u32, frame: &[u8]) -> (r: Vec<u8>)
    requires
        ipv4_parseable(frame@),
        ipv4_dst(frame@) == assigned,
    ensures
        r@ == spec_encode(MsgModel::Payload(frame@)),
{
    let owned = vstd::slice::slice_to_vec(frame);
    encode_msg(&VpnMsg::Payload(owned))
}

/// Law: the handshake reply decodes back to exactly one server hello
/// carrying the session's assigned address and the gateway.
pub proof fn lemma_server_hello_round_trip(assigned: u32)
    ensures
        spec_decode(spec_encode(server_hello_msg(assigned))) == Some(server_hello_msg(assigned)),
{
    crate::codec::lemma_codec_round_trip(server_hello_msg(assigned));
}

/// The per-session byte counter behind sampled bandwidth reporting: bytes
/// accumulate, and a report hands the total out and starts over.
pub struct StatCounter {
    total: u64,
}

impl StatCounter {
    /// The bytes accumulated since the last report.
    pub closed spec fn total(&self) -> u64 {
        self.total
    }

    /// A fresh counter.
    pub fn new() -> (r: Self)
        ensures
            r.total() == 0,
    {
        StatCounter { total: 0 }
    }

    /// Accounts `n` more bytes. When `report` holds — the caller's sampling
    /// decision — the accumulated total is handed out and the counter
    /// starts over; otherwise the bytes only accumulate.
    pub fn account(&mut self, n: usize, report: bool) -> (r: Option<u64>)
        ensures
            report ==> r == Some(old(self).total().saturating_add(n as u64)) && final(self).total()
                == 0,
            !report ==> r is None && final(self).total() == old(self).total().saturating_add(
                n as u64,
            ),
    {
        let grown = self.total.saturating_add(n as u64);
        if report {
            self.total = 0;
            Some(grown)
        } else {
            self.total = grown;
            None
        }
    }
}

/// The dash-for-dot replacement the metrics key applies to a hostname.
pub open spec fn dash_for_dot(b: u8) -> u8 {
    if b == 46 {
        45u8
    } else {
        b
    }
}

/// The leading bytes of every exit-usage metrics key: `exit_usage.`.
pub open spec fn stat_key_prefix() -> Seq<u8> {
    seq![101u8, 120u8, 105u8, 116u8, 95u8, 117u8, 115u8, 97u8, 103u8, 101u8, 46u8]
}

/// The metrics key under which an exit reports bandwidth: `exit_usage.`
/// followed by the hostname with every dot replaced by a dash.
pub open spec fn spec_stat_key(host: Seq<u8>) -> Seq<u8> {
    stat_key_prefix() + host.map_values(|b: u8| dash_for_dot(b))
}

/// Builds the metrics key for the exit hostname, given as bytes.
pub fn stat_key(host: &[u8]) -> (r: Vec<u8>)
    ensures
        r@ == spec_stat_key(host@),
{
    let mut v: Vec<u8> = Vec::new();
    v.push(101u8);
    v.push(120u8);
    v.push(105u8);
    v.push(116u8);
    v.push(95u8);
    v.push(117u8);
    v.push(115u8);
    v.push(97u8);
    v.push(103u8);
    v.push(101u8);
    v.push(46u8);
    assert(v@ =~= stat_key_prefix());
    let mut i: usize = 0;
    while i < host.len()
        invariant
            i <= host@.len(),
            v@ == stat_key_prefix() + host@.subrange(0, i as int).map_values(
                |b: u8| dash_for_dot(b),
            ),
        decreases host@.len() - i,
    {
        let b = host[i];
        if b == 46u8 {
            v.push(45u8);
        } else {
            v.push(b);
        }
        proof {
            assert(host@.subrange(0, i + 1).map_values(|c: u8| dash_for_dot(c)) =~= host@.subrange(
                0,
                i as int,
            ).map_values(|c: u8| dash_for_dot(c)).push(dash_for_dot(host@[i as int])));
            assert(v@ =~= stat_key_prefix() + host@.subrange(0, i + 1).map_values(
                |c: u8| dash_for_dot(c),
            ));
        }
        i = i + 1;
    }
    proof {
        assert(host@.subrange(0, host@.len() as int) =~= host@);
    }
    v
}

} // verus!
