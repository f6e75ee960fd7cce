//! The sockets that a session opens: which kind each of them is.
//!
//! The engine sends and receives on raw IPv6 sockets only, and never
//! blocks on one. Opening them is the caller's part; it takes a privilege
//! that the engine neither asks for nor gives up.

use crate::packet::checksum::{NEXT_HEADER_ICMPV6, NEXT_HEADER_UDP};
use vstd::prelude::*;

verus! {

/// The address family of a socket.
#[derive(Clone, Copy, Debug, PartialEq, Eq)]
pub enum SocketFamily {
    Ipv6,
}

/// The type of a socket.
#[derive(Clone, Copy, Debug, PartialEq, Eq)]
pub enum SocketKind {
    Raw,
}

/// The protocol of a raw socket.
#[derive(Clone, Copy, Debug, PartialEq, Eq)]
pub enum SocketProtocol {
    Icmpv6,
    Udp,
}

impl SocketProtocol {
    /// The number of the protocol, which is also its next-header number.
    pub open spec fn spec_number(self) -> u8 {
        match self {
            SocketProtocol::Icmpv6 => NEXT_HEADER_ICMPV6,
            SocketProtocol::Udp => NEXT_HEADER_UDP,
        }
    }

    /// The number of the protocol, which is also its next-header number.
    pub fn number(&self) -> (r: u8)
        ensures
            r == self.spec_number(),
    {
        match self {
            SocketProtocol::Icmpv6 => NEXT_HEADER_ICMPV6,
            SocketProtocol::Udp => NEXT_HEADER_UDP,
        }
    }
}

/// How a socket of the engine is to be opened.
#[derive(Clone, Copy, Debug, PartialEq, Eq)]
pub struct SocketConfig {
    pub family: SocketFamily,
    pub kind: SocketKind,
    pub protocol: SocketProtocol,
    pub nonblocking: bool,
}

/// A nonblocking raw IPv6 socket for `protocol`.
pub open spec fn raw_socket(protocol: SocketProtocol) -> SocketConfig {
    SocketConfig {
        family: SocketFamily::Ipv6,
        kind: SocketKind::Raw,
        protocol,
        nonblocking: true,
    }
}

/// The socket that echo requests are sent on.
pub fn make_icmp_send_socket() -> (r: SocketConfig)
    ensures
        r == raw_socket(SocketProtocol::Icmpv6),
{
    SocketConfig {
        family: SocketFamily::Ipv6,
        kind: SocketKind::Raw,
        protocol: SocketProtocol::Icmpv6,
        nonblocking: true,
    }
}

/// The socket that UDP probes are sent on.
pub fn make_udp_send_socket() -> (r: SocketConfig)
    ensures
        r == raw_socket(SocketProtocol::Udp),
{
    SocketConfig {
        family: SocketFamily::Ipv6,
        kind: SocketKind::Raw,
        protocol: SocketProtocol::Udp,
        nonblocking: true,
    }
}

/// The socket that replies are received on: they are ICMPv6 messages,
/// whatever the protocol of the probes.
pub fn make_recv_socket() -> (r: SocketConfig)
    ensures
        r == raw_socket(SocketProtocol::Icmpv6),
{
    SocketConfig {
        family: SocketFamily::Ipv6,
        kind: SocketKind::Raw,
        protocol: SocketProtocol::Icmpv6,
        nonblocking: true,
    }
}

} // verus!
