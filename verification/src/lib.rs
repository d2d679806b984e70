//! Server-side VPN datapath of a tunneling exit node.
//!
//! The library covers the pieces of the datapath that are pure logic:
//! IPv4 address leasing out of a CGNAT range, parsing of the IPv4/TCP/UDP
//! headers that the egress filter reads, the egress policy itself, the wire
//! codec for the handshake and payload messages, the route table that maps a
//! leased address to a session's ingress channel, and the per-session
//! decision steps that glue these together. The surrounding process (TUN
//! device, transport, executor) drives these functions from plain values.

pub mod codec;
pub mod ident;
pub mod packet;
pub mod policy;
pub mod pool;
pub mod route;
pub mod session;
