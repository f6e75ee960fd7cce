use ipv6_probe::error::TracerError;
use ipv6_probe::interface::{find_interface_addr, lookup_interface_addr, InterfaceAddress};
use ipv6_probe::packet::destination_unreachable::DestinationUnreachablePacket;
use ipv6_probe::packet::icmpv6::IcmpPacket;
use ipv6_probe::packet::time_exceeded::TimeExceededPacket;
use ipv6_probe::probe::{dispatch_icmp_probe, dispatch_udp_probe};
use ipv6_probe::response::{
    extract_dest_unreachable_v6, extract_echo_request_v6, extract_probe_resp_at,
    extract_probe_resp_v6, extract_tcp_packet_v6, extract_time_exceeded_v6,
    extract_udp_packet_v6, recv_icmp_probe, RecvEvent,
};
use ipv6_probe::types::{
    Ipv6Address, PacketSize, PayloadPattern, Port, PortDirection, Probe, ProbeResponse,
    ProbeResponseData, Sequence, TimeToLive, TraceId, TracerProtocol,
};
use std::time::{Duration, SystemTime};

fn address(last: u8) -> Ipv6Address {
    Ipv6Address::new([0x20, 0x01, 0x0d, 0xb8, 0, 0, 0, 0, 0, 0, 0, 0, 0, 0, 0, last])
}

fn probe() -> Probe {
    Probe::new(Sequence(1), TimeToLive(1), SystemTime::UNIX_EPOCH)
}

fn entry(name: &str, address: Option<Ipv6Address>) -> InterfaceAddress {
    InterfaceAddress { interface_name: name.to_string(), address }
}

/// An IPv6 header and, after it, `inner`.
fn quoted(inner: &[u8]) -> Vec<u8> {
    let mut bytes = vec![0u8; 40];
    bytes[0] = 0x60;
    bytes.extend_from_slice(inner);
    bytes
}

#[test]
fn unsupported_port_directions_are_refused() {
    for direction in [PortDirection::Unset, PortDirection::FixedBoth(Port(1), Port(2))] {
        let r = dispatch_udp_probe(
            probe(),
            address(1),
            address(2),
            direction,
            PacketSize(100),
            PayloadPattern(0),
        );
        assert!(matches!(r, Err(TracerError::Unimplemented)));
    }
}

#[test]
fn oversize_is_reported_before_the_port_direction() {
    let r = dispatch_udp_probe(
        probe(),
        address(1),
        address(2),
        PortDirection::Unset,
        PacketSize(1025),
        PayloadPattern(0),
    );
    assert!(matches!(r, Err(TracerError::InvalidPacketSize(1025))));
}

#[test]
fn packet_without_room_for_the_headers_is_refused() {
    for size in [0u16, 40, 47] {
        let r = dispatch_icmp_probe(
            probe(),
            address(1),
            address(2),
            TraceId(1),
            PacketSize(size),
            PayloadPattern(0),
        );
        assert!(matches!(r, Err(TracerError::PacketTooShort)));
        let r = dispatch_udp_probe(
            probe(),
            address(1),
            address(2),
            PortDirection::FixedSrc(Port(5)),
            PacketSize(size),
            PayloadPattern(0),
        );
        assert!(matches!(r, Err(TracerError::PacketTooShort)));
    }
}

#[test]
fn failed_receive_is_an_io_error() {
    let err = std::io::Error::from(std::io::ErrorKind::PermissionDenied);
    let r = recv_icmp_probe(RecvEvent::Failed(err), TracerProtocol::Icmp, PortDirection::Unset);
    match r {
        Err(TracerError::IoError(e)) => assert_eq!(e.kind(), std::io::ErrorKind::PermissionDenied),
        other => panic!("expected an I/O error, got {:?}", other),
    }
}

#[test]
fn short_message_is_refused() {
    let data = [3u8, 0, 0, 0, 0, 0, 0];
    let event = RecvEvent::Received { data: &data, source: address(9) };
    let r = recv_icmp_probe(event, TracerProtocol::Icmp, PortDirection::Unset);
    assert!(matches!(r, Err(TracerError::PacketTooShort)));
}

#[test]
fn short_inner_packet_is_refused() {
    // a time exceeded message that quotes the IPv6 header and seven bytes
    let mut data = vec![3u8, 0, 0, 0, 0, 0, 0, 0];
    data.extend_from_slice(&quoted(&[0u8; 7]));
    for protocol in [TracerProtocol::Icmp, TracerProtocol::Udp] {
        let event = RecvEvent::Received { data: &data, source: address(9) };
        let r = recv_icmp_probe(event, protocol, PortDirection::FixedSrc(Port(1)));
        assert!(matches!(r, Err(TracerError::PacketTooShort)));
    }
    // and one that stops inside the IPv6 header
    let event = RecvEvent::Received { data: &data[..47], source: address(9) };
    let r = recv_icmp_probe(event, TracerProtocol::Udp, PortDirection::FixedSrc(Port(1)));
    assert!(matches!(r, Err(TracerError::PacketTooShort)));
    assert!(matches!(extract_echo_request_v6(&[0u8; 47]), Err(TracerError::PacketTooShort)));
    assert!(matches!(extract_udp_packet_v6(&[0u8; 39]), Err(TracerError::PacketTooShort)));
}

#[test]
fn tcp_extraction_is_reserved() {
    assert!(matches!(extract_tcp_packet_v6(&[0u8; 60]), Err(TracerError::Unimplemented)));
    assert!(matches!(extract_tcp_packet_v6(&[]), Err(TracerError::Unimplemented)));
    let mut data = vec![3u8, 0, 0, 0, 0, 0, 0, 0];
    data.extend_from_slice(&quoted(&[0u8; 20]));
    let packet = TimeExceededPacket::new_view(&data).unwrap();
    let r = extract_time_exceeded_v6(&packet, TracerProtocol::Tcp, PortDirection::FixedSrc(Port(80)));
    assert!(matches!(r, Err(TracerError::Unimplemented)));
    let event = RecvEvent::Received { data: &data, source: address(9) };
    let r = recv_icmp_probe(event, TracerProtocol::Tcp, PortDirection::FixedSrc(Port(80)));
    assert!(matches!(r, Err(TracerError::Unimplemented)));
}

#[test]
fn inner_headers_are_read() {
    let inner = quoted(&[0x13, 0x88, 0x82, 0x9a, 0, 8, 0, 0]);
    assert_eq!(extract_udp_packet_v6(&inner).unwrap(), (5000, 33434));
    assert_eq!(extract_echo_request_v6(&inner).unwrap(), (8, 0));
    let inner = quoted(&[128, 0, 0xaa, 0xbb, 0xbe, 0xef, 0, 9, 1, 2, 3]);
    assert_eq!(extract_echo_request_v6(&inner).unwrap(), (0xbeef, 9));
}

#[test]
fn error_payload_is_matched_by_protocol_and_direction() {
    let mut data = vec![3u8, 0, 0, 0, 0, 0, 0, 0];
    data.extend_from_slice(&quoted(&[0x13, 0x88, 0x82, 0x9a, 0x01, 0x02, 0x03, 0x04]));
    let te = TimeExceededPacket::new_view(&data).unwrap();
    let du = DestinationUnreachablePacket::new_view(&data).unwrap();
    let fixed_src = PortDirection::FixedSrc(Port(5000));
    let fixed_dest = PortDirection::FixedDest(Port(33434));
    let both = PortDirection::FixedBoth(Port(5000), Port(33434));
    assert_eq!(extract_time_exceeded_v6(&te, TracerProtocol::Udp, fixed_src).unwrap(), (0, 33434));
    assert_eq!(extract_time_exceeded_v6(&te, TracerProtocol::Udp, fixed_dest).unwrap(), (0, 5000));
    assert_eq!(extract_time_exceeded_v6(&te, TracerProtocol::Udp, both).unwrap(), (0, 33434));
    assert_eq!(
        extract_time_exceeded_v6(&te, TracerProtocol::Udp, PortDirection::Unset).unwrap(),
        (0, 33434)
    );
    assert_eq!(
        extract_time_exceeded_v6(&te, TracerProtocol::Icmp, fixed_src).unwrap(),
        (0x0102, 0x0304)
    );
    assert_eq!(extract_dest_unreachable_v6(&du, TracerProtocol::Udp, fixed_src).unwrap(), (0, 33434));
    assert_eq!(extract_dest_unreachable_v6(&du, TracerProtocol::Udp, fixed_dest).unwrap(), (0, 5000));
    assert_eq!(
        extract_dest_unreachable_v6(&du, TracerProtocol::Icmp, fixed_dest).unwrap(),
        (0x0102, 0x0304)
    );
}

#[test]
fn other_messages_are_dropped() {
    for ty in [0u8, 2, 4, 128, 130, 135, 255] {
        let mut data = vec![0u8; 1024];
        data[0] = ty;
        for protocol in [TracerProtocol::Icmp, TracerProtocol::Udp, TracerProtocol::Tcp] {
            let event = RecvEvent::Received { data: &data, source: address(9) };
            let r = recv_icmp_probe(event, protocol, PortDirection::FixedSrc(Port(1)));
            assert!(matches!(r, Ok(None)));
        }
    }
}

#[test]
fn response_is_stamped_with_the_given_time() {
    let at = SystemTime::UNIX_EPOCH + Duration::from_secs(1_000_000);
    let mut data = vec![129u8, 0, 0, 0, 0x12, 0x34, 0, 7];
    data.extend_from_slice(&[0u8; 32]);
    let message = IcmpPacket::new_view(&data).unwrap();
    let r = extract_probe_resp_at(at, TracerProtocol::Icmp, PortDirection::Unset, &message, address(3))
        .unwrap();
    assert_eq!(
        r,
        Some(ProbeResponse::EchoReply(ProbeResponseData::new(at, address(3), 0x1234, 7)))
    );
}

#[test]
fn response_is_stamped_with_the_time_of_receipt() {
    let before = SystemTime::now();
    let mut data = vec![129u8, 0, 0, 0, 0x12, 0x34, 0, 7];
    data.extend_from_slice(&[0u8; 32]);
    let message = IcmpPacket::new_view(&data).unwrap();
    let r = extract_probe_resp_v6(TracerProtocol::Icmp, PortDirection::Unset, &message, address(3))
        .unwrap();
    let after = SystemTime::now();
    match r {
        Some(ProbeResponse::EchoReply(d)) => {
            assert!(before <= d.recv_time && d.recv_time <= after);
            assert_eq!((d.source_addr, d.identifier, d.sequence), (address(3), 0x1234, 7));
        }
        other => panic!("expected an echo reply, got {:?}", other),
    }
}

#[test]
fn first_ipv6_address_of_the_interface_is_found() {
    let entries = vec![
        entry("lo", None),
        entry("eth0", None),
        entry("eth1", Some(address(1))),
        entry("eth0", Some(address(2))),
        entry("eth0", Some(address(3))),
    ];
    assert_eq!(find_interface_addr("eth0", &entries).unwrap(), address(2));
    assert_eq!(find_interface_addr("eth1", &entries).unwrap(), address(1));
}

#[test]
fn interface_without_ipv6_address_is_unknown() {
    let entries = vec![entry("lo", None), entry("eth1", Some(address(1)))];
    match find_interface_addr("lo", &entries) {
        Err(TracerError::UnknownInterface(name)) => assert_eq!(name, "lo"),
        other => panic!("expected an unknown interface, got {:?}", other),
    }
    match find_interface_addr("eth0", &entries) {
        Err(TracerError::UnknownInterface(name)) => assert_eq!(name, "eth0"),
        other => panic!("expected an unknown interface, got {:?}", other),
    }
    assert!(matches!(find_interface_addr("eth1", &Vec::new()), Err(TracerError::UnknownInterface(_))));
}

#[test]
fn interface_that_does_not_exist_is_unknown() {
    let name = "no-such-interface-0123456789";
    match lookup_interface_addr(name) {
        Err(TracerError::UnknownInterface(n)) => assert_eq!(n, name),
        other => panic!("expected an unknown interface, got {:?}", other),
    }
}
