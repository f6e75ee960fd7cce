//! The plain values that the scheduler and the engine exchange.

use std::time::SystemTime;
use vstd::prelude::*;

verus! {

/// A point in time, as the system clock gives it. Nothing is known of its value.
#[verifier::external_type_specification]
#[verifier::external_body]
pub struct ExSystemTime(std::time::SystemTime);

/// The per-probe tag by which a reply is matched to its probe.
#[derive(Clone, Copy, Debug, PartialEq, Eq, Hash)]
pub struct Sequence(pub u16);

/// The per-session tag carried in the identifier field of an echo request.
#[derive(Clone, Copy, Debug, PartialEq, Eq, Hash)]
pub struct TraceId(pub u16);

/// The hop limit of a probe.
#[derive(Clone, Copy, Debug, PartialEq, Eq, Hash)]
pub struct TimeToLive(pub u8);

/// The size of a whole probe packet, IPv6 header included.
#[derive(Clone, Copy, Debug, PartialEq, Eq, Hash)]
pub struct PacketSize(pub u16);

/// The byte that fills the payload of a probe.
#[derive(Clone, Copy, Debug, PartialEq, Eq, Hash)]
pub struct PayloadPattern(pub u8);

/// A UDP or TCP port.
#[derive(Clone, Copy, Debug, PartialEq, Eq, Hash)]
pub struct Port(pub u16);

/// Which of the two ports of a probe is fixed; the other one carries the
/// sequence.
#[derive(Clone, Copy, Debug, PartialEq, Eq)]
pub enum PortDirection {
    /// Neither port is fixed.
    Unset,
    /// The source port is fixed, the destination port carries the sequence.
    FixedSrc(Port),
    /// The destination port is fixed, the source port carries the sequence.
    FixedDest(Port),
    /// Both ports are fixed.
    FixedBoth(Port, Port),
}

/// The protocol of the probes of a session.
#[derive(Clone, Copy, Debug, PartialEq, Eq)]
pub enum TracerProtocol {
    /// ICMPv6 echo requests.
    Icmp,
    /// UDP datagrams.
    Udp,
    /// TCP segments.
    Tcp,
}

/// An IPv6 address, as its sixteen octets in network order.
#[derive(Clone, Copy, Debug, PartialEq, Eq, Hash)]
pub struct Ipv6Address {
    pub octets: [u8; 16],
}

impl View for Ipv6Address {
    type V = Seq<u8>;

    open spec fn view(&self) -> Seq<u8> {
        self.octets@
    }
}

impl Ipv6Address {
    /// The address with the given octets.
    pub fn new(octets: [u8; 16]) -> (r: Self)
        ensures
            r.octets == octets,
            r@ == octets@,
    {
        Ipv6Address { octets }
    }

    /// The octets of the address, in network order.
    pub fn octets(&self) -> (r: [u8; 16])
        ensures
            r == self.octets,
    {
        self.octets
    }
}

/// One outgoing probe: what the scheduler decided, and when it was sent.
#[derive(Clone, Copy, Debug, PartialEq, Eq)]
pub struct Probe {
    pub sequence: Sequence,
    pub ttl: TimeToLive,
    pub sent: SystemTime,
}

impl Probe {
    /// A probe with the given sequence and hop limit, sent at `sent`.
    pub fn new(sequence: Sequence, ttl: TimeToLive, sent: SystemTime) -> (r: Self)
        ensures
            r == (Probe { sequence, ttl, sent }),
    {
        Probe { sequence, ttl, sent }
    }
}

/// What a reply tells about the probe that caused it.
#[derive(Clone, Copy, Debug, PartialEq, Eq)]
pub struct ProbeResponseData {
    pub recv_time: SystemTime,
    pub source_addr: Ipv6Address,
    pub identifier: u16,
    pub sequence: u16,
}

impl ProbeResponseData {
    /// The data of a reply received at `recv_time` from `source_addr`.
    pub fn new(recv_time: SystemTime, source_addr: Ipv6Address, identifier: u16, sequence: u16) -> (r:
        Self)
        ensures
            r == (ProbeResponseData { recv_time, source_addr, identifier, sequence }),
    {
        ProbeResponseData { recv_time, source_addr, identifier, sequence }
    }
}

/// A reply to a probe, by the kind of message that carried it.
#[derive(Clone, Copy, Debug, PartialEq, Eq)]
pub enum ProbeResponse {
    /// A router on the path dropped the probe when its hop limit ran out.
    TimeExceeded(ProbeResponseData),
    /// The probe could not be delivered.
    DestinationUnreachable(ProbeResponseData),
    /// The target answered an echo request.
    EchoReply(ProbeResponseData),
}

} // verus!
