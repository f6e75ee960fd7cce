//! Building probes: the bytes of each probe, and what the sender has to do
//! with the socket to get them on the wire.
//!
//! The kernel writes the IPv6 header of what a raw socket sends. So a
//! probe is a transport segment; its source is set by binding the socket,
//! its hop limit by a socket option, and the port of the address that it
//! is sent to is zero.

use crate::error::{TraceResult, TracerError};
use crate::packet::bytes::{hi8, lo8, put_be16};
use crate::packet::checksum::{
    checksum_verifies, echo_checksum_of, icmp_ipv6_checksum, lemma_checksum_verifies,
    lemma_udp_checksum_verifies, udp_checksum_of, udp_ipv6_checksum, NEXT_HEADER_ICMPV6,
    NEXT_HEADER_UDP,
};
use crate::packet::echo_request::{echo_identifier, echo_sequence, EchoRequestPacketMut};
use crate::packet::icmpv6::{
    message_code, message_type, IcmpPacket, Icmpv6Code, Icmpv6Type, MESSAGE_HEADER_SIZE,
};
use crate::packet::ipv6::{Ipv6Packet, IPV6_HEADER_SIZE};
use crate::packet::udp::{
    udp_checksum, udp_destination, udp_length, udp_payload, udp_source, UdpPacket, UdpPacketMut,
    UDP_HEADER_SIZE,
};
use crate::types::{
    Ipv6Address, PacketSize, PayloadPattern, PortDirection, Probe, Sequence, TraceId,
};
use vstd::prelude::*;

verus! {

/// The largest packet, IPv6 header included, that the engine sends or receives.
pub const MAX_PACKET_SIZE: usize = 1024;

/// The largest UDP segment that the engine sends.
pub const MAX_UDP_PACKET_BUF: usize = MAX_PACKET_SIZE - IPV6_HEADER_SIZE;

/// The largest payload of a UDP probe.
pub const MAX_UDP_PAYLOAD_BUF: usize = MAX_UDP_PACKET_BUF - UDP_HEADER_SIZE;

/// The largest ICMPv6 message that the engine sends.
pub const MAX_ICMP_PACKET_BUF: usize = MAX_PACKET_SIZE - IPV6_HEADER_SIZE;

/// The largest payload of an echo request.
pub const MAX_ICMP_PAYLOAD_BUF: usize = MAX_ICMP_PACKET_BUF - MESSAGE_HEADER_SIZE;

/// The smallest packet that holds a probe: the two headers, and no payload.
pub const MIN_PACKET_SIZE: usize = IPV6_HEADER_SIZE + UDP_HEADER_SIZE;

/// The UDP segment of a probe as it stands before its checksum is taken:
/// the two ports, the length of the whole segment, a zero checksum, and
/// `payload_size` bytes of `pattern`.
pub open spec fn udp_segment(src_port: u16, dest_port: u16, payload_size: usize, pattern: u8) -> Seq<
    u8,
> {
    Seq::new(
        (8 + payload_size) as nat,
        |i: int|
            if i == 0 {
                hi8(src_port)
            } else if i == 1 {
                lo8(src_port)
            } else if i == 2 {
                hi8(dest_port)
            } else if i == 3 {
                lo8(dest_port)
            } else if i == 4 {
                hi8((8 + payload_size) as u16)
            } else if i == 5 {
                lo8((8 + payload_size) as u16)
            } else if i < 8 {
                0u8
            } else {
                pattern
            },
    )
}

/// The UDP segment of a probe as it is sent between `src` and `dst`.
pub open spec fn udp_probe_packet(
    src: Seq<u8>,
    dst: Seq<u8>,
    src_port: u16,
    dest_port: u16,
    payload_size: usize,
    pattern: u8,
) -> Seq<u8> {
    let s = udp_segment(src_port, dest_port, payload_size, pattern);
    put_be16(s, 6, udp_checksum_of(s, src, dst))
}

/// The echo request of a probe as it stands before its checksum is taken:
/// type 128 and code 0, a zero checksum, identifier and sequence, and
/// `payload_size` bytes of `pattern`.
pub open spec fn echo_segment(identifier: u16, sequence: u16, payload_size: usize, pattern: u8) -> Seq<
    u8,
> {
    Seq::new(
        (8 + payload_size) as nat,
        |i: int|
            if i == 0 {
                128u8
            } else if i < 4 {
                0u8
            } else if i == 4 {
                hi8(identifier)
            } else if i == 5 {
                lo8(identifier)
            } else if i == 6 {
                hi8(sequence)
            } else if i == 7 {
                lo8(sequence)
            } else {
                pattern
            },
    )
}

/// The echo request of a probe as it is sent between `src` and `dst`.
pub open spec fn echo_probe_packet(
    src: Seq<u8>,
    dst: Seq<u8>,
    identifier: u16,
    sequence: u16,
    payload_size: usize,
    pattern: u8,
) -> Seq<u8> {
    let s = echo_segment(identifier, sequence, payload_size, pattern);
    put_be16(s, 2, echo_checksum_of(s, src, dst))
}

/// What a read-only view finds in the UDP segment of a probe: the ports,
/// the length and the payload that it was built from, and a checksum that
/// is not zero and that the receiver's test accepts.
pub proof fn lemma_udp_probe_packet(
    src: Seq<u8>,
    dst: Seq<u8>,
    src_port: u16,
    dest_port: u16,
    payload_size: usize,
    pattern: u8,
)
    requires
        src.len() == 16,
        dst.len() == 16,
        payload_size <= MAX_UDP_PAYLOAD_BUF,
    ensures
        ({
            let p = udp_probe_packet(src, dst, src_port, dest_port, payload_size, pattern);
            &&& p.len() == 8 + payload_size
            &&& udp_source(p) == src_port
            &&& udp_destination(p) == dest_port
            &&& udp_length(p) == 8 + payload_size
            &&& udp_checksum(p) != 0
            &&& udp_payload(p).len() == payload_size
            &&& forall|i: int| 0 <= i < payload_size ==> udp_payload(p)[i] == pattern
            &&& checksum_verifies(p, src, dst, NEXT_HEADER_UDP)
        }),
{
    let s = udp_segment(src_port, dest_port, payload_size, pattern);
    lemma_udp_checksum_verifies(s, src, dst);
    crate::packet::bytes::lemma_be16_of_parts(src_port);
    crate::packet::bytes::lemma_be16_of_parts(dest_port);
    crate::packet::bytes::lemma_be16_of_parts((8 + payload_size) as u16);
    crate::packet::bytes::lemma_be16_of_parts(udp_checksum_of(s, src, dst));
}

/// What a read-only view finds in the echo request of a probe: the type
/// and code of an echo request, the identifier, the sequence and the
/// payload that it was built from, and a checksum that the receiver's test
/// accepts.
pub proof fn lemma_echo_probe_packet(
    src: Seq<u8>,
    dst: Seq<u8>,
    identifier: u16,
    sequence: u16,
    payload_size: usize,
    pattern: u8,
)
    requires
        src.len() == 16,
        dst.len() == 16,
        payload_size <= MAX_ICMP_PAYLOAD_BUF,
    ensures
        ({
            let p = echo_probe_packet(src, dst, identifier, sequence, payload_size, pattern);
            &&& p.len() == 8 + payload_size
            &&& message_type(p) == Icmpv6Type::EchoRequest
            &&& message_code(p) == Icmpv6Code(0)
            &&& echo_identifier(p) == identifier
            &&& echo_sequence(p) == sequence
            &&& forall|i: int| 8 <= i < 8 + payload_size ==> p[i] == pattern
            &&& checksum_verifies(p, src, dst, NEXT_HEADER_ICMPV6)
        }),
{
    let s = echo_segment(identifier, sequence, payload_size, pattern);
    lemma_checksum_verifies(s, src, dst, NEXT_HEADER_ICMPV6, 1);
    crate::packet::bytes::lemma_be16_of_parts(identifier);
    crate::packet::bytes::lemma_be16_of_parts(sequence);
}

/// Builds the UDP segment of a probe.
pub fn make_udp_packet(
    src_addr: Ipv6Address,
    dest_addr: Ipv6Address,
    src_port: u16,
    dest_port: u16,
    payload_size: usize,
    payload_pattern: PayloadPattern,
) -> (r: Vec<u8>)
    requires
        payload_size <= MAX_UDP_PAYLOAD_BUF,
    ensures
        r@ == udp_probe_packet(
            src_addr@,
            dest_addr@,
            src_port,
            dest_port,
            payload_size,
            payload_pattern.0,
        ),
{
    let udp_packet_size: usize = UdpPacket::minimum_packet_size() + payload_size;
    let payload: Vec<u8> = vec![payload_pattern.0; payload_size];
    let mut buf: Vec<u8> = vec![0u8; udp_packet_size];
    let ghost seg = udp_segment(src_port, dest_port, payload_size, payload_pattern.0);
    {
        let mut udp = UdpPacketMut { buf: buf.as_mut_slice() };
        udp.set_source(src_port);
        udp.set_destination(dest_port);
        udp.set_length(udp_packet_size as u16);
        udp.set_payload(payload.as_slice());
        assert(udp@ =~= seg);
        let checksum: u16 = udp_ipv6_checksum(udp.packet(), src_addr, dest_addr);
        udp.set_checksum(checksum);
    }
    buf
}

/// Builds the echo request of a probe.
pub fn make_echo_request_icmp_packet(
    src_addr: Ipv6Address,
    dest_addr: Ipv6Address,
    identifier: TraceId,
    sequence: Sequence,
    payload_size: usize,
    payload_pattern: PayloadPattern,
) -> (r: Vec<u8>)
    requires
        payload_size <= MAX_ICMP_PAYLOAD_BUF,
    ensures
        r@ == echo_probe_packet(
            src_addr@,
            dest_addr@,
            identifier.0,
            sequence.0,
            payload_size,
            payload_pattern.0,
        ),
{
    let packet_size: usize = IcmpPacket::minimum_packet_size() + payload_size;
    let payload: Vec<u8> = vec![payload_pattern.0; payload_size];
    let mut buf: Vec<u8> = vec![0u8; packet_size];
    let ghost seg = echo_segment(identifier.0, sequence.0, payload_size, payload_pattern.0);
    {
        let mut echo = EchoRequestPacketMut { buf: buf.as_mut_slice() };
        echo.set_icmp_type(Icmpv6Type::EchoRequest);
        echo.set_icmp_code(Icmpv6Code(0));
        echo.set_identifier(identifier.0);
        echo.set_payload(payload.as_slice());
        echo.set_sequence(sequence.0);
        assert(echo@ =~= seg);
        let checksum: u16 = icmp_ipv6_checksum(echo.packet(), src_addr, dest_addr);
        echo.set_checksum(checksum);
    }
    buf
}

/// The payload size of an echo request in a packet of `packet_size` bytes.
pub fn icmp_payload_size(packet_size: usize) -> (r: usize)
    requires
        packet_size >= MIN_PACKET_SIZE,
    ensures
        r == packet_size - MIN_PACKET_SIZE,
{
    let ip_header_size: usize = Ipv6Packet::minimum_packet_size();
    let icmp_header_size: usize = IcmpPacket::minimum_packet_size();
    packet_size - icmp_header_size - ip_header_size
}

/// The payload size of a UDP probe in a packet of `packet_size` bytes.
pub fn udp_payload_size(packet_size: usize) -> (r: usize)
    requires
        packet_size >= MIN_PACKET_SIZE,
    ensures
        r == packet_size - MIN_PACKET_SIZE,
{
    let ip_header_size: usize = Ipv6Packet::minimum_packet_size();
    let udp_header_size: usize = UdpPacket::minimum_packet_size();
    packet_size - udp_header_size - ip_header_size
}

/// What the sender does with its socket for one probe: bind it to the
/// local address and port, set its unicast hop limit, and send the packet
/// to the remote address and port.
#[derive(Debug, PartialEq, Eq)]
pub struct ProbeDispatch {
    pub packet: Vec<u8>,
    pub local_addr: Ipv6Address,
    pub local_port: u16,
    pub hop_limit: u32,
    pub remote_addr: Ipv6Address,
    pub remote_port: u16,
}

/// The payload size of a probe in a packet of the size `packet_size`,
/// which holds both headers.
pub open spec fn payload_size_in(packet_size: PacketSize) -> usize {
    (packet_size.0 - MIN_PACKET_SIZE) as usize
}

/// Why no probe of the size `packet_size` is built, if none is: it is
/// above the maximum, or too short for the two headers.
pub open spec fn packet_size_error(packet_size: PacketSize) -> Option<TracerError> {
    if packet_size.0 > MAX_PACKET_SIZE {
        Some(TracerError::InvalidPacketSize(packet_size.0 as usize))
    } else if packet_size.0 < MIN_PACKET_SIZE {
        Some(TracerError::PacketTooShort)
    } else {
        None
    }
}

/// The ports of a UDP probe, source first: one is fixed, the other
/// carries the sequence. Without exactly one fixed port there are none.
pub open spec fn udp_probe_ports(port_direction: PortDirection, sequence: Sequence) -> Option<
    (u16, u16),
> {
    match port_direction {
        PortDirection::FixedSrc(src_port) => Some((src_port.0, sequence.0)),
        PortDirection::FixedDest(dest_port) => Some((sequence.0, dest_port.0)),
        PortDirection::FixedBoth(_, _) => None,
        PortDirection::Unset => None,
    }
}

/// Why no UDP probe is built, if none is: the size is above the maximum,
/// the port direction is not supported, or the size is too short for the
/// two headers, in this order.
pub open spec fn udp_dispatch_error(packet_size: PacketSize, port_direction: PortDirection) -> Option<
    TracerError,
> {
    if packet_size.0 > MAX_PACKET_SIZE {
        Some(TracerError::InvalidPacketSize(packet_size.0 as usize))
    } else if !(port_direction is FixedSrc || port_direction is FixedDest) {
        Some(TracerError::Unimplemented)
    } else if packet_size.0 < MIN_PACKET_SIZE {
        Some(TracerError::PacketTooShort)
    } else {
        None
    }
}

impl ProbeDispatch {
    /// Whether this is the dispatch of `packet` from `local_addr` and
    /// `local_port` to `remote_addr`, with the hop limit `ttl`.
    pub open spec fn sends(
        self,
        packet: Seq<u8>,
        local_addr: Ipv6Address,
        local_port: u16,
        ttl: u8,
        remote_addr: Ipv6Address,
    ) -> bool {
        &&& self.packet@ == packet
        &&& self.local_addr == local_addr
        &&& self.local_port == local_port
        &&& self.hop_limit == ttl
        &&& self.remote_addr == remote_addr
        &&& self.remote_port == 0
    }
}

/// Builds an echo request for `probe` and says how to send it: from
/// `src_addr` and port 0, with the probe's hop limit, to `dest_addr`.
pub fn dispatch_icmp_probe(
    probe: Probe,
    src_addr: Ipv6Address,
    dest_addr: Ipv6Address,
    identifier: TraceId,
    packet_size: PacketSize,
    payload_pattern: PayloadPattern,
) -> (r: TraceResult<ProbeDispatch>)
    ensures
        match r {
            Ok(d) => {
                &&& packet_size_error(packet_size) is None
                &&& d.sends(
                    echo_probe_packet(
                        src_addr@,
                        dest_addr@,
                        identifier.0,
                        probe.sequence.0,
                        payload_size_in(packet_size),
                        payload_pattern.0,
                    ),
                    src_addr,
                    0,
                    probe.ttl.0,
                    dest_addr,
                )
                &&& d.packet@.len() == packet_size.0 - IPV6_HEADER_SIZE
                &&& echo_identifier(d.packet@) == identifier.0
                &&& echo_sequence(d.packet@) == probe.sequence.0
                &&& checksum_verifies(d.packet@, src_addr@, dest_addr@, NEXT_HEADER_ICMPV6)
            },
            Err(e) => packet_size_error(packet_size) == Some(e),
        },
{
    let size: usize = usize::from(packet_size.0);
    if size > MAX_PACKET_SIZE {
        return Err(TracerError::InvalidPacketSize(size));
    }
    if size < MIN_PACKET_SIZE {
        return Err(TracerError::PacketTooShort);
    }
    let echo_request = make_echo_request_icmp_packet(
        src_addr,
        dest_addr,
        identifier,
        probe.sequence,
        icmp_payload_size(size),
        payload_pattern,
    );
    proof {
        lemma_echo_probe_packet(
            src_addr@,
            dest_addr@,
            identifier.0,
            probe.sequence.0,
            payload_size_in(packet_size),
            payload_pattern.0,
        );
    }
    Ok(
        ProbeDispatch {
            packet: echo_request,
            local_addr: src_addr,
            local_port: 0,
            hop_limit: u32::from(probe.ttl.0),
            remote_addr: dest_addr,
            remote_port: 0,
        },
    )
}

/// Builds a UDP probe for `probe` and says how to send it: from
/// `src_addr` and the probe's source port, with the probe's hop limit, to
/// `dest_addr`. The port of the address that it is sent to is zero: the
/// destination port stands in the segment.
pub fn dispatch_udp_probe(
    probe: Probe,
    src_addr: Ipv6Address,
    dest_addr: Ipv6Address,
    port_direction: PortDirection,
    packet_size: PacketSize,
    payload_pattern: PayloadPattern,
) -> (r: TraceResult<ProbeDispatch>)
    ensures
        match r {
            Ok(d) => {
                &&& udp_dispatch_error(packet_size, port_direction) is None
                &&& udp_probe_ports(port_direction, probe.sequence) matches Some(
                    (src_port, dest_port),
                )
                &&& d.sends(
                    udp_probe_packet(
                        src_addr@,
                        dest_addr@,
                        src_port,
                        dest_port,
                        payload_size_in(packet_size),
                        payload_pattern.0,
                    ),
                    src_addr,
                    src_port,
                    probe.ttl.0,
                    dest_addr,
                )
                &&& d.packet@.len() == packet_size.0 - IPV6_HEADER_SIZE
                &&& udp_source(d.packet@) == src_port
                &&& udp_destination(d.packet@) == dest_port
                &&& checksum_verifies(d.packet@, src_addr@, dest_addr@, NEXT_HEADER_UDP)
            },
            Err(e) => udp_dispatch_error(packet_size, port_direction) == Some(e),
        },
{
    let size: usize = usize::from(packet_size.0);
    if size > MAX_PACKET_SIZE {
        return Err(TracerError::InvalidPacketSize(size));
    }
    let (src_port, dest_port) = match port_direction {
        PortDirection::FixedSrc(src_port) => (src_port.0, probe.sequence.0),
        PortDirection::FixedDest(dest_port) => (probe.sequence.0, dest_port.0),
        PortDirection::FixedBoth(_, _) | PortDirection::Unset => {
            return Err(TracerError::Unimplemented);
        },
    };
    if size < MIN_PACKET_SIZE {
        return Err(TracerError::PacketTooShort);
    }
    let udp = make_udp_packet(
        src_addr,
        dest_addr,
        src_port,
        dest_port,
        udp_payload_size(size),
        payload_pattern,
    );
    proof {
        lemma_udp_probe_packet(
            src_addr@,
            dest_addr@,
            src_port,
            dest_port,
            payload_size_in(packet_size),
            payload_pattern.0,
        );
    }
    Ok(
        ProbeDispatch {
            packet: udp,
            local_addr: src_addr,
            local_port: src_port,
            hop_limit: u32::from(probe.ttl.0),
            remote_addr: dest_addr,
            remote_port: 0,
        },
    )
}

} // verus!
