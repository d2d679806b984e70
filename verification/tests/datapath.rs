use pnet_packet::Packet;
use vpn_exit::codec::{decode_msg, encode_msg, VpnMsg};
use vpn_exit::packet::{parse_dst_port, parse_ipv4_dst};
use vpn_exit::policy::PortPolicy;
use vpn_exit::route::{demux_frame, DemuxOutcome, RouteTable};
use vpn_exit::session::{egress_frame, ingress_capacity, ingress_step, stat_key, IngressAction,
    StatCounter};

const PROTO_TCP: u8 = 6;
const PROTO_UDP: u8 = 17;

fn addr(a: u8, b: u8, c: u8, d: u8) -> u32 {
    ((a as u32) << 24) | ((b as u32) << 16) | ((c as u32) << 8) | (d as u32)
}

fn ipv4_packet(src: u32, dst: u32, proto: u8, payload: &[u8]) -> Vec<u8> {
    let total = 20 + payload.len();
    let mut v = vec![0u8; 20];
    v[0] = 0x45;
    v[2] = (total >> 8) as u8;
    v[3] = total as u8;
    v[8] = 64;
    v[9] = proto;
    v[12..16].copy_from_slice(&src.to_be_bytes());
    v[16..20].copy_from_slice(&dst.to_be_bytes());
    v.extend_from_slice(payload);
    v
}

fn udp_to_port(dport: u16) -> Vec<u8> {
    let mut p = vec![0u8; 8];
    p[2..4].copy_from_slice(&dport.to_be_bytes());
    p[5] = 8;
    p
}

fn tcp_to_port(dport: u16) -> Vec<u8> {
    let mut p = vec![0u8; 20];
    p[2..4].copy_from_slice(&dport.to_be_bytes());
    p[12] = 0x50;
    p
}

fn open_policy() -> PortPolicy {
    PortPolicy::new(
        std::collections::HashSet::new(),
        std::collections::HashSet::new(),
        false,
    )
}

#[test]
fn codec_round_trips() {
    let msgs = vec![
        VpnMsg::ClientHello,
        VpnMsg::ServerHello { client_ip: addr(100, 64, 7, 7), gateway: addr(100, 64, 0, 1) },
        VpnMsg::Payload(vec![1, 2, 3, 4, 5]),
        VpnMsg::Payload(vec![]),
    ];
    for m in msgs {
        let wire = encode_msg(&m);
        let back = decode_msg(&wire).unwrap();
        match (&m, &back) {
            (VpnMsg::ClientHello, VpnMsg::ClientHello) => {}
            (
                VpnMsg::ServerHello { client_ip: a, gateway: b },
                VpnMsg::ServerHello { client_ip: c, gateway: d },
            ) => {
                assert_eq!(a, c);
                assert_eq!(b, d);
            }
            (VpnMsg::Payload(a), VpnMsg::Payload(b)) => assert_eq!(a, b),
            _ => panic!("round trip changed the message kind"),
        }
    }
}

#[test]
fn codec_matches_reference_encoding() {
    // an enum variant travels as its index, a little-endian u32
    assert_eq!(bincode::serialize(&Ok::<u32, u8>(5)).unwrap(), vec![0, 0, 0, 0, 5, 0, 0, 0]);
    assert_eq!(bincode::serialize(&Err::<u32, u8>(7)).unwrap(), vec![1, 0, 0, 0, 7]);
    // a byte blob travels length-prefixed with a little-endian u64
    let blob: &[u8] = &[9, 8, 7];
    assert_eq!(bincode::serialize(&blob).unwrap(), vec![3, 0, 0, 0, 0, 0, 0, 0, 9, 8, 7]);
    // the server hello assembled out of exactly those pieces
    let reply = encode_msg(
        &VpnMsg::ServerHello { client_ip: addr(100, 64, 7, 7), gateway: addr(100, 64, 0, 1) },
    );
    assert_eq!(reply, vec![1, 0, 0, 0, 100, 64, 7, 7, 100, 64, 0, 1]);
    // the payload framing: tag, byte count, raw bytes
    let framed = encode_msg(&VpnMsg::Payload(vec![9, 8, 7]));
    assert_eq!(framed, vec![2, 0, 0, 0, 3, 0, 0, 0, 0, 0, 0, 0, 9, 8, 7]);
}

#[test]
fn decode_ignores_fields_after_a_client_hello_tag() {
    let mut wire = vec![0u8, 0, 0, 0];
    wire.extend_from_slice(&[0xde, 0xad, 0xbe, 0xef]);
    assert!(matches!(decode_msg(&wire), Some(VpnMsg::ClientHello)));
}

#[test]
fn decode_rejects_garbage() {
    assert!(decode_msg(&[1, 2]).is_none());
    assert!(decode_msg(&[9, 0, 0, 0, 1]).is_none());
    // a payload whose byte count overruns the datagram
    assert!(decode_msg(&[2, 0, 0, 0, 99, 0, 0, 0, 0, 0, 0, 0, 1]).is_none());
}

#[test]
fn parsing_matches_reference_parser() {
    let a = addr(100, 64, 7, 7);
    let pkt = ipv4_packet(a, addr(8, 8, 8, 8), PROTO_UDP, &udp_to_port(53));
    let reference = pnet_packet::ipv4::Ipv4Packet::new(&pkt).unwrap();
    assert_eq!(parse_ipv4_dst(&pkt), Some(u32::from(reference.get_destination())));
    let ref_port = pnet_packet::udp::UdpPacket::new(reference.payload()).map(|u| u.get_destination());
    assert_eq!(parse_dst_port(&pkt), ref_port);

    let tcp_pkt = ipv4_packet(a, addr(1, 1, 1, 1), PROTO_TCP, &tcp_to_port(443));
    let reference = pnet_packet::ipv4::Ipv4Packet::new(&tcp_pkt).unwrap();
    let ref_port = pnet_packet::tcp::TcpPacket::new(reference.payload()).map(|t| t.get_destination());
    assert_eq!(parse_dst_port(&tcp_pkt), ref_port);

    // a UDP packet whose payload is cut short yields no port either way
    let short = ipv4_packet(a, addr(8, 8, 8, 8), PROTO_UDP, &[0, 53]);
    let reference = pnet_packet::ipv4::Ipv4Packet::new(&short).unwrap();
    let ref_port = pnet_packet::udp::UdpPacket::new(reference.payload()).map(|u| u.get_destination());
    assert_eq!(parse_dst_port(&short), ref_port);

    assert!(parse_ipv4_dst(&[0u8; 19]).is_none());
    assert!(pnet_packet::ipv4::Ipv4Packet::new(&[0u8; 19]).is_none());
}

fn ipv4_packet_with_header(ihl: u8, total: u16, proto: u8, payload: &[u8]) -> Vec<u8> {
    let header_bytes = (ihl as usize) * 4;
    let mut v = vec![0u8; header_bytes.max(20)];
    v[0] = 0x40 | (ihl & 0x0f);
    v[2..4].copy_from_slice(&total.to_be_bytes());
    v[9] = proto;
    v.extend_from_slice(payload);
    v
}

#[test]
fn parsing_matches_reference_parser_on_odd_headers() {
    // a header with options: an IHL of six words
    let with_options = ipv4_packet_with_header(6, 32, PROTO_UDP, &udp_to_port(53));
    // a total-length field that cuts the payload off
    let truncated = ipv4_packet_with_header(5, 20, PROTO_UDP, &udp_to_port(53));
    // an IHL below the fixed header, and one far past the frame
    let tiny_ihl = ipv4_packet_with_header(3, 32, PROTO_UDP, &udp_to_port(53));
    let huge_ihl = ipv4_packet_with_header(15, 32, PROTO_UDP, &[]);
    for pkt in [with_options, truncated, tiny_ihl, huge_ihl] {
        let reference = pnet_packet::ipv4::Ipv4Packet::new(&pkt).unwrap();
        let ref_port =
            pnet_packet::udp::UdpPacket::new(reference.payload()).map(|u| u.get_destination());
        assert_eq!(parse_dst_port(&pkt), ref_port, "frame {:?}", pkt);
    }
}

#[test]
fn egress_filter_rejects_spoofed_source() {
    let a = addr(100, 64, 7, 7);
    let policy = open_policy();
    let spoofed = ipv4_packet(addr(100, 64, 7, 8), addr(8, 8, 8, 8), PROTO_UDP, &udp_to_port(53));
    assert!(!policy.allows(a, &spoofed));
    let honest = ipv4_packet(a, addr(8, 8, 8, 8), PROTO_UDP, &udp_to_port(53));
    assert!(policy.allows(a, &honest));
}

#[test]
fn egress_filter_rejects_reserved_destinations() {
    let a = addr(100, 64, 7, 7);
    let policy = open_policy();
    for bad in [
        addr(192, 168, 1, 1),
        addr(10, 0, 0, 1),
        addr(172, 16, 3, 4),
        addr(127, 0, 0, 1),
        addr(0, 0, 0, 0),
        addr(255, 255, 255, 255),
    ] {
        let pkt = ipv4_packet(a, bad, PROTO_UDP, &udp_to_port(53));
        assert!(!policy.allows(a, &pkt));
    }
    let good = ipv4_packet(a, addr(8, 8, 8, 8), PROTO_UDP, &udp_to_port(53));
    assert!(policy.allows(a, &good));
}

#[test]
fn egress_filter_blocks_quic_but_not_tcp_443() {
    let a = addr(100, 64, 7, 7);
    let policy = open_policy();
    let quic = ipv4_packet(a, addr(8, 8, 8, 8), PROTO_UDP, &udp_to_port(443));
    assert!(!policy.allows(a, &quic));
    let https = ipv4_packet(a, addr(8, 8, 8, 8), PROTO_TCP, &tcp_to_port(443));
    assert!(policy.allows(a, &https));
}

#[test]
fn egress_filter_applies_port_tables() {
    let a = addr(100, 64, 7, 7);
    let mut black = std::collections::HashSet::new();
    black.insert(25u16);
    let mut white = std::collections::HashSet::new();
    white.insert(53u16);
    let closed = PortPolicy::new(black.clone(), white.clone(), true);
    let dns = ipv4_packet(a, addr(8, 8, 8, 8), PROTO_UDP, &udp_to_port(53));
    let smtp = ipv4_packet(a, addr(8, 8, 8, 8), PROTO_TCP, &tcp_to_port(25));
    let https = ipv4_packet(a, addr(8, 8, 8, 8), PROTO_TCP, &tcp_to_port(443));
    assert!(closed.allows(a, &dns));
    assert!(!closed.allows(a, &smtp));
    // not whitelisted, and the whitelist is on
    assert!(!closed.allows(a, &https));
    let open = PortPolicy::new(black, white, false);
    assert!(open.allows(a, &https));
    assert!(!open.allows(a, &smtp));
}

#[test]
fn hello_yields_exactly_one_server_hello() {
    let a = addr(100, 64, 7, 7);
    let wire = encode_msg(&VpnMsg::ClientHello);
    let out = ingress_step(a, &wire, &open_policy());
    assert_eq!(out.accounted, 0);
    match out.action {
        IngressAction::Reply(reply) => match decode_msg(&reply) {
            Some(VpnMsg::ServerHello { client_ip, gateway }) => {
                assert_eq!(client_ip, a);
                assert_eq!(gateway, addr(100, 64, 0, 1));
            }
            _ => panic!("the reply is not a server hello"),
        },
        _ => panic!("a client hello must be answered"),
    }
}

#[test]
fn hello_client_ip_lies_in_the_usable_slice() {
    let cidr: cidr_utils::cidr::Ipv4Cidr = "100.64.0.0/10".parse().unwrap();
    let mut assigner = vpn_exit::pool::IpAddrAssigner::new(&cidr);
    let lease = assigner.assign();
    let out = ingress_step(lease.addr(), &encode_msg(&VpnMsg::ClientHello), &open_policy());
    match out.action {
        IngressAction::Reply(reply) => match decode_msg(&reply) {
            Some(VpnMsg::ServerHello { client_ip, gateway }) => {
                assert!(client_ip >= addr(100, 64, 0, 16));
                assert!(client_ip <= addr(100, 127, 255, 239));
                assert_eq!(gateway, addr(100, 64, 0, 1));
            }
            _ => panic!("the reply is not a server hello"),
        },
        _ => panic!("a client hello must be answered"),
    }
}

#[test]
fn loopback_payload_is_not_written_to_the_tun() {
    let a = addr(100, 64, 7, 7);
    let pkt = ipv4_packet(a, addr(127, 0, 0, 1), PROTO_UDP, &udp_to_port(53));
    let n = pkt.len();
    let out = ingress_step(a, &encode_msg(&VpnMsg::Payload(pkt)), &open_policy());
    assert_eq!(out.accounted, n);
    assert!(matches!(out.action, IngressAction::Ignore));
}

#[test]
fn quic_payload_is_not_written_to_the_tun() {
    let a = addr(100, 64, 7, 7);
    let pkt = ipv4_packet(a, addr(8, 8, 8, 8), PROTO_UDP, &udp_to_port(443));
    let out = ingress_step(a, &encode_msg(&VpnMsg::Payload(pkt)), &open_policy());
    assert!(matches!(out.action, IngressAction::Ignore));
}

#[test]
fn dns_payload_is_written_byte_for_byte() {
    let a = addr(100, 64, 7, 7);
    let pkt = ipv4_packet(a, addr(8, 8, 8, 8), PROTO_UDP, &udp_to_port(53));
    let n = pkt.len();
    let out = ingress_step(a, &encode_msg(&VpnMsg::Payload(pkt.clone())), &open_policy());
    assert_eq!(out.accounted, n);
    match out.action {
        IngressAction::WriteTun(written) => assert_eq!(written, pkt),
        _ => panic!("an acceptable packet must reach the TUN"),
    }
}

#[test]
fn a_server_hello_from_the_client_is_fatal() {
    let a = addr(100, 64, 7, 7);
    let wire = encode_msg(&VpnMsg::ServerHello { client_ip: a, gateway: a });
    let out = ingress_step(a, &wire, &open_policy());
    assert!(matches!(out.action, IngressAction::Fatal));
}

#[test]
fn undecodable_bytes_are_fatal() {
    let out = ingress_step(addr(100, 64, 7, 7), &[7, 7], &open_policy());
    assert!(matches!(out.action, IngressAction::Fatal));
}

#[test]
fn egress_frames_a_packet_as_a_payload_message() {
    let a = addr(100, 64, 7, 7);
    let pkt = ipv4_packet(addr(8, 8, 8, 8), a, PROTO_UDP, &udp_to_port(53));
    let wire = egress_frame(a, &pkt);
    match decode_msg(&wire) {
        Some(VpnMsg::Payload(b)) => assert_eq!(b, pkt),
        _ => panic!("the frame must travel as a payload message"),
    }
}

#[test]
fn ingress_capacity_follows_the_limit() {
    assert_eq!(ingress_capacity(true, 12345), 65536);
    assert_eq!(ingress_capacity(false, 4_000_000), 1_000_000);
    assert_eq!(ingress_capacity(false, 6), 1);
}

#[test]
fn stat_key_replaces_dots_with_dashes() {
    assert_eq!(stat_key(b"exit.example.com"), b"exit_usage.exit-example-com".to_vec());
    assert_eq!(stat_key(b""), b"exit_usage.".to_vec());
}

#[test]
fn stat_counter_accumulates_and_reports() {
    let mut counter = StatCounter::new();
    assert!(counter.account(10, false).is_none());
    assert!(counter.account(5, false).is_none());
    assert_eq!(counter.account(1, true), Some(16));
    assert_eq!(counter.account(2, true), Some(2));
}

#[test]
fn route_lifecycle_inserts_and_invalidates() {
    let a = addr(100, 64, 7, 7);
    let mut table = RouteTable::new();
    assert!(table.get(a).is_none());
    let (tx, _rx) = smol::channel::bounded::<Vec<u8>>(4);
    assert!(table.insert(a, tx));
    assert!(table.get(a).is_some());
    table.invalidate(a);
    assert!(table.get(a).is_none());
}

#[test]
fn demux_delivers_the_exact_frame() {
    let a = addr(100, 64, 7, 7);
    let mut table = RouteTable::new();
    let (tx, rx) = smol::channel::bounded::<Vec<u8>>(4);
    assert!(table.insert(a, tx));
    let frame = ipv4_packet(addr(8, 8, 8, 8), a, PROTO_UDP, &udp_to_port(53));
    assert!(matches!(demux_frame(&table, &frame), DemuxOutcome::Delivered(d) if d == a));
    assert_eq!(rx.try_recv().unwrap(), frame);
    assert!(rx.try_recv().is_err());
}

#[test]
fn demux_drops_unknown_and_unparseable_frames() {
    let table = RouteTable::new();
    let frame = ipv4_packet(addr(8, 8, 8, 8), addr(100, 64, 7, 7), PROTO_UDP, &udp_to_port(53));
    assert!(matches!(demux_frame(&table, &frame), DemuxOutcome::NoRoute(_)));
    assert!(matches!(demux_frame(&table, &[0u8; 10]), DemuxOutcome::NotIpv4));
}

#[test]
fn a_full_channel_does_not_affect_other_sessions() {
    let a = addr(100, 64, 7, 7);
    let b = addr(100, 64, 7, 8);
    let mut table = RouteTable::new();
    let (tx_a, rx_a) = smol::channel::bounded::<Vec<u8>>(1);
    let (tx_b, rx_b) = smol::channel::bounded::<Vec<u8>>(1);
    assert!(table.insert(a, tx_a));
    assert!(table.insert(b, tx_b));
    let to_a = ipv4_packet(addr(8, 8, 8, 8), a, PROTO_UDP, &udp_to_port(53));
    let to_b = ipv4_packet(addr(8, 8, 8, 8), b, PROTO_UDP, &udp_to_port(53));
    // fill a's channel, then overflow it
    assert!(matches!(demux_frame(&table, &to_a), DemuxOutcome::Delivered(_)));
    assert!(matches!(demux_frame(&table, &to_a), DemuxOutcome::ChannelRejected(_)));
    // b is untouched by a's overflow
    assert!(matches!(demux_frame(&table, &to_b), DemuxOutcome::Delivered(d) if d == b));
    assert_eq!(rx_b.try_recv().unwrap(), to_b);
    assert_eq!(rx_a.try_recv().unwrap(), to_a);
}

#[test]
fn client_ids_are_stable_per_peer() {
    let mut ids = vpn_exit::ident::ClientIdTable::new();
    let peer = u128::from(addr(1, 2, 3, 4));
    let first = ids.client_id(peer);
    let second = ids.client_id(peer);
    assert_eq!(first, second);
    let other = ids.client_id(peer + 1);
    let other_again = ids.client_id(peer + 1);
    assert_eq!(other, other_again);
}
