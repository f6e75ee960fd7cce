//! Matching replies to probes: which probe an incoming ICMPv6 message is
//! about, read from the message itself.
//!
//! An echo reply repeats identifier and sequence of the request. An error
//! message carries the start of the packet that it is about: its IPv6
//! header and at least the first eight bytes of what followed.

use crate::error::{TraceResult, TracerError};
use crate::packet::destination_unreachable::DestinationUnreachablePacket;
use crate::packet::echo_reply::EchoReplyPacket;
use crate::packet::echo_request::{echo_identifier, echo_sequence, EchoRequestPacket};
use crate::packet::icmpv6::{message_payload, message_type, IcmpPacket, Icmpv6Type};
use crate::packet::ipv6::{ipv6_payload, Ipv6Packet};
use crate::packet::time_exceeded::TimeExceededPacket;
use crate::packet::udp::{udp_destination, udp_source, UdpPacket};
use crate::types::{
    Ipv6Address, PortDirection, ProbeResponse, ProbeResponseData, TracerProtocol,
};
use std::time::SystemTime;
use vstd::prelude::*;

verus! {

/// Identifier and sequence of the echo request that starts after the IPv6
/// header in `ipv6_bytes`.
pub open spec fn inner_echo_request(ipv6_bytes: Seq<u8>) -> TraceResult<(u16, u16)> {
    if ipv6_bytes.len() < 40 || ipv6_payload(ipv6_bytes).len() < 8 {
        Err(TracerError::PacketTooShort)
    } else {
        Ok((echo_identifier(ipv6_payload(ipv6_bytes)), echo_sequence(ipv6_payload(ipv6_bytes))))
    }
}

/// Source and destination port of the UDP segment that starts after the
/// IPv6 header in `ipv6_bytes`.
pub open spec fn inner_udp_ports(ipv6_bytes: Seq<u8>) -> TraceResult<(u16, u16)> {
    if ipv6_bytes.len() < 40 || ipv6_payload(ipv6_bytes).len() < 8 {
        Err(TracerError::PacketTooShort)
    } else {
        Ok((udp_source(ipv6_payload(ipv6_bytes)), udp_destination(ipv6_payload(ipv6_bytes))))
    }
}

/// Source and destination port of the TCP segment after the IPv6 header:
/// the engine does not read them yet.
pub open spec fn inner_tcp_ports(ipv6_bytes: Seq<u8>) -> TraceResult<(u16, u16)> {
    Err(TracerError::Unimplemented)
}

/// The port of a UDP probe that carries its sequence: the source port
/// where the destination port is fixed, else the destination port.
pub open spec fn udp_probe_sequence(direction: PortDirection, src: u16, dest: u16) -> u16 {
    match direction {
        PortDirection::FixedDest(_) => src,
        _ => dest,
    }
}

/// The port of a TCP probe that is read as its sequence: the source port
/// where the source port is fixed, else the destination port.
pub open spec fn tcp_probe_sequence(direction: PortDirection, src: u16, dest: u16) -> u16 {
    match direction {
        PortDirection::FixedSrc(_) => src,
        _ => dest,
    }
}

/// Identifier and sequence of the probe that `payload`, the payload of an
/// error message, is the start of. Only an echo request has an identifier.
pub open spec fn probe_of_error_payload(
    payload: Seq<u8>,
    protocol: TracerProtocol,
    direction: PortDirection,
) -> TraceResult<(u16, u16)> {
    match protocol {
        TracerProtocol::Icmp => inner_echo_request(payload),
        TracerProtocol::Udp => match inner_udp_ports(payload) {
            Ok((src, dest)) => Ok((0u16, udp_probe_sequence(direction, src, dest))),
            Err(e) => Err(e),
        },
        TracerProtocol::Tcp => match inner_tcp_ports(payload) {
            Ok((src, dest)) => Ok((0u16, tcp_probe_sequence(direction, src, dest))),
            Err(e) => Err(e),
        },
    }
}

/// The response that the ICMPv6 message `message`, received at `recv` from
/// `src`, amounts to: none if it is no reply to a probe of this session's
/// protocol.
pub open spec fn probe_response_at(
    recv: SystemTime,
    protocol: TracerProtocol,
    direction: PortDirection,
    message: Seq<u8>,
    src: Ipv6Address,
) -> TraceResult<Option<ProbeResponse>> {
    match message_type(message) {
        Icmpv6Type::TimeExceeded => match probe_of_error_payload(
            message_payload(message),
            protocol,
            direction,
        ) {
            Ok((id, seq)) => Ok(
                Some(
                    ProbeResponse::TimeExceeded(
                        ProbeResponseData {
                            recv_time: recv,
                            source_addr: src,
                            identifier: id,
                            sequence: seq,
                        },
                    ),
                ),
            ),
            Err(e) => Err(e),
        },
        Icmpv6Type::DestinationUnreachable => match probe_of_error_payload(
            message_payload(message),
            protocol,
            direction,
        ) {
            Ok((id, seq)) => Ok(
                Some(
                    ProbeResponse::DestinationUnreachable(
                        ProbeResponseData {
                            recv_time: recv,
                            source_addr: src,
                            identifier: id,
                            sequence: seq,
                        },
                    ),
                ),
            ),
            Err(e) => Err(e),
        },
        Icmpv6Type::EchoReply => match protocol {
            TracerProtocol::Icmp => Ok(
                Some(
                    ProbeResponse::EchoReply(
                        ProbeResponseData {
                            recv_time: recv,
                            source_addr: src,
                            identifier: echo_identifier(message),
                            sequence: echo_sequence(message),
                        },
                    ),
                ),
            ),
            _ => Ok(None),
        },
        _ => Ok(None),
    }
}

/// Identifier and sequence of the echo request inside an error message.
pub fn extract_echo_request_v6(ipv6_bytes: &[u8]) -> (r: TraceResult<(u16, u16)>)
    ensures
        r == inner_echo_request(ipv6_bytes@),
{
    match Ipv6Packet::new_view(ipv6_bytes) {
        Some(ipv6) => match EchoRequestPacket::new_view(ipv6.payload()) {
            Some(echo_request_packet) => Ok(
                (echo_request_packet.get_identifier(), echo_request_packet.get_sequence()),
            ),
            None => Err(TracerError::PacketTooShort),
        },
        None => Err(TracerError::PacketTooShort),
    }
}

/// Source and destination port of the UDP segment inside an error message.
pub fn extract_udp_packet_v6(ipv6_bytes: &[u8]) -> (r: TraceResult<(u16, u16)>)
    ensures
        r == inner_udp_ports(ipv6_bytes@),
{
    match Ipv6Packet::new_view(ipv6_bytes) {
        Some(ipv6) => match UdpPacket::new_view(ipv6.payload()) {
            Some(udp_packet) => Ok((udp_packet.get_source(), udp_packet.get_destination())),
            None => Err(TracerError::PacketTooShort),
        },
        None => Err(TracerError::PacketTooShort),
    }
}

/// Source and destination port of the TCP segment inside an error message:
/// reserved, and refused for every input.
pub fn extract_tcp_packet_v6(payload: &[u8]) -> (r: TraceResult<(u16, u16)>)
    ensures
        r == inner_tcp_ports(payload@),
{
    Err(TracerError::Unimplemented)
}

/// Identifier and sequence of the probe that the payload of an error
/// message is the start of.
fn extract_error_payload_v6(payload: &[u8], protocol: TracerProtocol, direction: PortDirection) -> (r:
    TraceResult<(u16, u16)>)
    ensures
        r == probe_of_error_payload(payload@, protocol, direction),
{
    match protocol {
        TracerProtocol::Icmp => extract_echo_request_v6(payload),
        TracerProtocol::Udp => match extract_udp_packet_v6(payload) {
            Ok((src, dest)) => {
                let sequence: u16 = match direction {
                    PortDirection::FixedDest(_) => src,
                    _ => dest,
                };
                Ok((0, sequence))
            },
            Err(e) => Err(e),
        },
        TracerProtocol::Tcp => match extract_tcp_packet_v6(payload) {
            Ok((src, dest)) => {
                let sequence: u16 = match direction {
                    PortDirection::FixedSrc(_) => src,
                    _ => dest,
                };
                Ok((0, sequence))
            },
            Err(e) => Err(e),
        },
    }
}

/// Identifier and sequence of the probe that ran out of hops.
pub fn extract_time_exceeded_v6(
    packet: &TimeExceededPacket<'_>,
    protocol: TracerProtocol,
    direction: PortDirection,
) -> (r: TraceResult<(u16, u16)>)
    ensures
        r == probe_of_error_payload(message_payload(packet@), protocol, direction),
{
    extract_error_payload_v6(packet.payload(), protocol, direction)
}

/// Identifier and sequence of the probe that could not be delivered.
pub fn extract_dest_unreachable_v6(
    packet: &DestinationUnreachablePacket<'_>,
    protocol: TracerProtocol,
    direction: PortDirection,
) -> (r: TraceResult<(u16, u16)>)
    ensures
        r == probe_of_error_payload(message_payload(packet@), protocol, direction),
{
    extract_error_payload_v6(packet.payload(), protocol, direction)
}

/// What a nonblocking receive on the receiving socket came back with.
#[derive(Debug)]
pub enum RecvEvent<'a> {
    /// A message arrived: the receive buffer, and the peer's address.
    Received { data: &'a [u8], source: Ipv6Address },
    /// Nothing is queued.
    WouldBlock,
    /// The receive failed.
    Failed(std::io::Error),
}

/// What the engine reports for `event`, if it happened at `recv`.
pub open spec fn recv_outcome_at(
    recv: SystemTime,
    event: RecvEvent<'_>,
    protocol: TracerProtocol,
    direction: PortDirection,
) -> TraceResult<Option<ProbeResponse>> {
    match event {
        RecvEvent::Received { data, source } => if data@.len() < 8 {
            Err(TracerError::PacketTooShort)
        } else {
            probe_response_at(recv, protocol, direction, data@, source)
        },
        RecvEvent::WouldBlock => Ok(None),
        RecvEvent::Failed(err) => Err(TracerError::IoError(err)),
    }
}

/// Reads the system clock, with `SystemTime::now`. Nothing is claimed of
/// the time that it gives.
#[verifier::external_body]
fn now() -> (t: SystemTime) {
    SystemTime::now()
}

/// The response that the message `icmp_v6`, received at `recv` from `src`,
/// amounts to.
pub fn extract_probe_resp_at(
    recv: SystemTime,
    protocol: TracerProtocol,
    direction: PortDirection,
    icmp_v6: &IcmpPacket<'_>,
    src: Ipv6Address,
) -> (r: TraceResult<Option<ProbeResponse>>)
    ensures
        r == probe_response_at(recv, protocol, direction, icmp_v6@, src),
{
    match icmp_v6.get_icmp_type() {
        Icmpv6Type::TimeExceeded => match TimeExceededPacket::new_view(icmp_v6.packet()) {
            Some(packet) => match extract_time_exceeded_v6(&packet, protocol, direction) {
                Ok((id, seq)) => Ok(
                    Some(ProbeResponse::TimeExceeded(ProbeResponseData::new(recv, src, id, seq))),
                ),
                Err(e) => Err(e),
            },
            None => Err(TracerError::PacketTooShort),
        },
        Icmpv6Type::DestinationUnreachable => match DestinationUnreachablePacket::new_view(
            icmp_v6.packet(),
        ) {
            Some(packet) => match extract_dest_unreachable_v6(&packet, protocol, direction) {
                Ok((id, seq)) => Ok(
                    Some(
                        ProbeResponse::DestinationUnreachable(
                            ProbeResponseData::new(recv, src, id, seq),
                        ),
                    ),
                ),
                Err(e) => Err(e),
            },
            None => Err(TracerError::PacketTooShort),
        },
        Icmpv6Type::EchoReply => match protocol {
            TracerProtocol::Icmp => match EchoReplyPacket::new_view(icmp_v6.packet()) {
                Some(packet) => {
                    let id: u16 = packet.get_identifier();
                    let seq: u16 = packet.get_sequence();
                    Ok(Some(ProbeResponse::EchoReply(ProbeResponseData::new(recv, src, id, seq))))
                },
                None => Err(TracerError::PacketTooShort),
            },
            TracerProtocol::Udp | TracerProtocol::Tcp => Ok(None),
        },
        _ => Ok(None),
    }
}

/// The response that the message `icmp_v6` from `src` amounts to, stamped
/// with the time of this call.
pub fn extract_probe_resp_v6(
    protocol: TracerProtocol,
    direction: PortDirection,
    icmp_v6: &IcmpPacket<'_>,
    src: Ipv6Address,
) -> (r: TraceResult<Option<ProbeResponse>>)
    ensures
        exists|recv: SystemTime| r == probe_response_at(recv, protocol, direction, icmp_v6@, src),
{
    let recv = now();
    extract_probe_resp_at(recv, protocol, direction, icmp_v6, src)
}

/// What the engine reports for the outcome of one nonblocking receive:
/// nothing where nothing was queued, the error where the receive failed,
/// and else what the message that arrived amounts to.
pub fn recv_icmp_probe(event: RecvEvent<'_>, protocol: TracerProtocol, direction: PortDirection) -> (r:
    TraceResult<Option<ProbeResponse>>)
    ensures
        exists|recv: SystemTime| r == recv_outcome_at(recv, event, protocol, direction),
        event is WouldBlock ==> r == Ok::<Option<ProbeResponse>, TracerError>(None),
        event matches RecvEvent::Failed(err) ==> r == Err::<Option<ProbeResponse>, TracerError>(
            TracerError::IoError(err),
        ),
{
    match event {
        RecvEvent::Received { data, source } => match IcmpPacket::new_view(data) {
            Some(icmp_v6) => {
                let r = extract_probe_resp_v6(protocol, direction, &icmp_v6, source);
                proof {
                    let recv = choose|recv: SystemTime|
                        r == probe_response_at(recv, protocol, direction, icmp_v6@, source);
                    assert(r == recv_outcome_at(recv, event, protocol, direction));
                }
                r
            },
            None => {
                proof {
                    let recv: SystemTime = arbitrary();
                    assert(Err::<Option<ProbeResponse>, TracerError>(TracerError::PacketTooShort)
                        == recv_outcome_at(recv, event, protocol, direction));
                }
                Err(TracerError::PacketTooShort)
            },
        },
        RecvEvent::WouldBlock => {
            proof {
                let recv: SystemTime = arbitrary();
                assert(Ok::<Option<ProbeResponse>, TracerError>(None) == recv_outcome_at(
                    recv,
                    event,
                    protocol,
                    direction,
                ));
            }
            Ok(None)
        },
        RecvEvent::Failed(err) => {
            proof {
                let recv: SystemTime = arbitrary();
                assert(Err::<Option<ProbeResponse>, TracerError>(TracerError::IoError(err))
                    == recv_outcome_at(recv, event, protocol, direction));
            }
            Err(TracerError::IoError(err))
        },
    }
}

/// Whether `payload`, the payload of an error message, starts with an
/// IPv6 header and then the first eight bytes of `probe_packet`: more of
/// the packet that it is about no router has to send back.
pub open spec fn quotes(payload: Seq<u8>, probe_packet: Seq<u8>) -> bool {
    &&& payload.len() >= 48
    &&& probe_packet.len() >= 8
    &&& forall|i: int| 0 <= i < 8 ==> payload[40 + i] == probe_packet[i]
}

/// An error message about a UDP probe is matched to the sequence of that
/// probe, under the port direction by which the probe was built: whichever
/// port is fixed, the sequence is read from the other one.
pub proof fn lemma_udp_probe_is_matched(
    payload: Seq<u8>,
    probe_packet: Seq<u8>,
    direction: PortDirection,
    src_port: u16,
    dest_port: u16,
    sequence: u16,
)
    requires
        quotes(payload, probe_packet),
        udp_source(probe_packet) == src_port,
        udp_destination(probe_packet) == dest_port,
        (direction is FixedSrc && dest_port == sequence) || (direction is FixedDest && src_port
            == sequence),
    ensures
        probe_of_error_payload(payload, TracerProtocol::Udp, direction) == Ok::<
            (u16, u16),
            TracerError,
        >((0u16, sequence)),
{
    let inner = ipv6_payload(payload);
    assert(inner[0] == probe_packet[0] && inner[1] == probe_packet[1] && inner[2]
        == probe_packet[2] && inner[3] == probe_packet[3]) by {
        assert(payload[40] == probe_packet[0]);
        assert(payload[41] == probe_packet[1]);
        assert(payload[42] == probe_packet[2]);
        assert(payload[43] == probe_packet[3]);
    }
}

/// An error message about an echo request is matched to the identifier
/// and the sequence of that request.
pub proof fn lemma_echo_probe_is_matched(
    payload: Seq<u8>,
    probe_packet: Seq<u8>,
    direction: PortDirection,
    identifier: u16,
    sequence: u16,
)
    requires
        quotes(payload, probe_packet),
        echo_identifier(probe_packet) == identifier,
        echo_sequence(probe_packet) == sequence,
    ensures
        probe_of_error_payload(payload, TracerProtocol::Icmp, direction) == Ok::<
            (u16, u16),
            TracerError,
        >((identifier, sequence)),
{
    let inner = ipv6_payload(payload);
    assert(inner[4] == probe_packet[4] && inner[5] == probe_packet[5] && inner[6]
        == probe_packet[6] && inner[7] == probe_packet[7]) by {
        assert(payload[44] == probe_packet[4]);
        assert(payload[45] == probe_packet[5]);
        assert(payload[46] == probe_packet[6]);
        assert(payload[47] == probe_packet[7]);
    }
}

/// A time exceeded message whose payload is matched to a probe is reported
/// as a time exceeded response with that probe's identifier and sequence,
/// from the sender of the message; a destination unreachable message in
/// the same way.
pub proof fn lemma_error_message_is_reported(
    recv: SystemTime,
    protocol: TracerProtocol,
    direction: PortDirection,
    message: Seq<u8>,
    src: Ipv6Address,
    identifier: u16,
    sequence: u16,
)
    requires
        probe_of_error_payload(message_payload(message), protocol, direction) == Ok::<
            (u16, u16),
            TracerError,
        >((identifier, sequence)),
    ensures
        message_type(message) == Icmpv6Type::TimeExceeded ==> probe_response_at(
            recv,
            protocol,
            direction,
            message,
            src,
        ) == Ok::<Option<ProbeResponse>, TracerError>(
            Some(
                ProbeResponse::TimeExceeded(
                    ProbeResponseData {
                        recv_time: recv,
                        source_addr: src,
                        identifier,
                        sequence,
                    },
                ),
            ),
        ),
        message_type(message) == Icmpv6Type::DestinationUnreachable ==> probe_response_at(
            recv,
            protocol,
            direction,
            message,
            src,
        ) == Ok::<Option<ProbeResponse>, TracerError>(
            Some(
                ProbeResponse::DestinationUnreachable(
                    ProbeResponseData {
                        recv_time: recv,
                        source_addr: src,
                        identifier,
                        sequence,
                    },
                ),
            ),
        ),
{
}

} // verus!
