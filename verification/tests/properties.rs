use ipv6_probe::packet::bytes::{read_u16, read_u32, write_bytes, write_u16, write_u32};
use ipv6_probe::packet::checksum::{
    icmp_ipv6_checksum, ipv6_checksum, sum_words, udp_ipv6_checksum, NEXT_HEADER_ICMPV6,
    NEXT_HEADER_UDP,
};
use ipv6_probe::packet::destination_unreachable::{
    DestinationUnreachablePacket, DestinationUnreachablePacketMut,
};
use ipv6_probe::packet::echo_reply::{EchoReplyPacket, EchoReplyPacketMut};
use ipv6_probe::packet::echo_request::{EchoRequestPacket, EchoRequestPacketMut};
use ipv6_probe::packet::icmpv6::{IcmpPacket, IcmpPacketMut, Icmpv6Code, Icmpv6Type};
use ipv6_probe::packet::ipv6::{Ipv6Packet, Ipv6PacketMut};
use ipv6_probe::packet::tcp::{TcpPacket, TcpPacketMut};
use ipv6_probe::packet::time_exceeded::{TimeExceededPacket, TimeExceededPacketMut};
use ipv6_probe::packet::udp::{UdpPacket, UdpPacketMut};
use ipv6_probe::probe::{
    dispatch_icmp_probe, dispatch_udp_probe, icmp_payload_size, make_echo_request_icmp_packet,
    make_udp_packet, udp_payload_size,
};
use ipv6_probe::socket::{
    make_icmp_send_socket, make_recv_socket, make_udp_send_socket, SocketFamily, SocketKind,
    SocketProtocol,
};
use ipv6_probe::types::{
    Ipv6Address, PacketSize, PayloadPattern, Port, PortDirection, Probe, Sequence, TimeToLive,
    TraceId,
};
use std::time::SystemTime;

fn address(seed: u8) -> Ipv6Address {
    let mut octets = [0u8; 16];
    for (i, o) in octets.iter_mut().enumerate() {
        *o = seed.wrapping_mul(31).wrapping_add((i as u8).wrapping_mul(17));
    }
    Ipv6Address::new(octets)
}

/// The one's-complement sum that a receiver takes over pseudo-header and
/// segment, by the book: add the words up, then fold the carries in.
fn receiver_sum(segment: &[u8], src: Ipv6Address, dst: Ipv6Address, next_header: u8) -> u16 {
    let mut bytes: Vec<u8> = Vec::new();
    bytes.extend_from_slice(&src.octets());
    bytes.extend_from_slice(&dst.octets());
    bytes.extend_from_slice(&(segment.len() as u32).to_be_bytes());
    bytes.extend_from_slice(&[0, 0, 0, next_header]);
    bytes.extend_from_slice(segment);
    if bytes.len() % 2 == 1 {
        bytes.push(0);
    }
    let mut sum: u64 = 0;
    for word in bytes.chunks(2) {
        sum += u64::from(u16::from_be_bytes([word[0], word[1]]));
    }
    while sum >> 16 != 0 {
        sum = (sum & 0xffff) + (sum >> 16);
    }
    sum as u16
}

fn probe(sequence: u16) -> Probe {
    Probe::new(Sequence(sequence), TimeToLive(5), SystemTime::UNIX_EPOCH)
}

#[test]
fn icmp_checksum_of_known_message() {
    let src = Ipv6Address::new([0xfe, 0x80, 0, 0, 0, 0, 0, 0, 0, 0, 0, 0, 0, 0, 0, 1]);
    let dst = Ipv6Address::new([0xfe, 0x80, 0, 0, 0, 0, 0, 0, 0, 0, 0, 0, 0, 0, 0, 2]);
    let segment = [0x80, 0x00, 0x00, 0x00, 0x12, 0x34, 0x00, 0x07];
    // 0xfe80 + 1 + 0xfe80 + 2 + 8 + 58 + 0x8000 + 0x1234 + 7 = 0x28f80,
    // folded 0x8f82, complemented 0x707d
    assert_eq!(icmp_ipv6_checksum(&segment, src, dst), 0x707d);
}

#[test]
fn checksum_field_does_not_count() {
    let src = address(1);
    let dst = address(2);
    let clean = [0x80, 0x00, 0x00, 0x00, 0x12, 0x34, 0x00, 0x07];
    let dirty = [0x80, 0x00, 0xab, 0xcd, 0x12, 0x34, 0x00, 0x07];
    assert_eq!(icmp_ipv6_checksum(&clean, src, dst), icmp_ipv6_checksum(&dirty, src, dst));
    let clean = [0x13, 0x88, 0x82, 0x9a, 0x00, 0x08, 0x00, 0x00];
    let dirty = [0x13, 0x88, 0x82, 0x9a, 0x00, 0x08, 0xff, 0x01];
    assert_eq!(udp_ipv6_checksum(&clean, src, dst), udp_ipv6_checksum(&dirty, src, dst));
}

#[test]
fn udp_checksum_zero_is_stored_as_all_ones() {
    // all of pseudo-header and segment sum to 0xffff: the complement is zero
    let src = Ipv6Address::new([0u8; 16]);
    let dst = Ipv6Address::new([0u8; 16]);
    // length 8 + next header 17 + ports and length field: 0xffe6 + 8 = 0xffee; 0xffee + 8 + 17 = 0x10007 -> 8
    let segment = [0xff, 0xd6, 0x00, 0x08, 0x00, 0x08, 0x00, 0x00];
    assert_eq!(receiver_sum(&segment, src, dst, NEXT_HEADER_UDP), 0xffff);
    assert_eq!(ipv6_checksum(&segment, 3, src, dst, NEXT_HEADER_UDP), 0);
    assert_eq!(udp_ipv6_checksum(&segment, src, dst), 0xffff);
}

#[test]
fn sum_words_pads_an_odd_length() {
    assert_eq!(sum_words(0, &[0x12, 0x34, 0x56], None), 0x1234 + 0x5600);
    assert_eq!(sum_words(0, &[], None), 0);
    assert_eq!(sum_words(0xffff, &[0x00, 0x01], None), 1);
    assert_eq!(sum_words(0, &[0x12, 0x34, 0x56, 0x78], Some(0)), 0x5678);
    assert_eq!(sum_words(0, &[0x12, 0x34, 0x56, 0x78], Some(1)), 0x1234);
    assert_eq!(sum_words(0, &[0xff, 0xff, 0xff, 0xff], None), 0xffff);
}

#[test]
fn emitted_udp_segment_verifies() {
    for (seed, size, pattern) in [(1u8, 48u16, 0u8), (7, 49, 0xff), (9, 84, 0x5a), (200, 1024, 0x01)] {
        let src = address(seed);
        let dst = address(seed.wrapping_add(100));
        for direction in [PortDirection::FixedSrc(Port(33434)), PortDirection::FixedDest(Port(443))] {
            let d = dispatch_udp_probe(
                probe(u16::from(seed) * 257),
                src,
                dst,
                direction,
                PacketSize(size),
                PayloadPattern(pattern),
            )
            .unwrap();
            assert_eq!(d.packet.len(), usize::from(size) - 40);
            assert_eq!(receiver_sum(&d.packet, src, dst, NEXT_HEADER_UDP), 0xffff);
            assert_ne!(UdpPacket::new_view(&d.packet).unwrap().get_checksum(), 0);
        }
    }
}

#[test]
fn emitted_echo_request_verifies() {
    for (seed, size, pattern) in [(1u8, 48u16, 0u8), (7, 49, 0xff), (9, 80, 0x5a), (200, 1024, 0x01)] {
        let src = address(seed);
        let dst = address(seed.wrapping_add(100));
        let d = dispatch_icmp_probe(
            probe(u16::from(seed) * 257),
            src,
            dst,
            TraceId(0xfffe),
            PacketSize(size),
            PayloadPattern(pattern),
        )
        .unwrap();
        assert_eq!(d.packet.len(), usize::from(size) - 40);
        assert_eq!(receiver_sum(&d.packet, src, dst, NEXT_HEADER_ICMPV6), 0xffff);
    }
}

#[test]
fn udp_ports_follow_the_direction() {
    let d = dispatch_udp_probe(
        probe(40000),
        address(1),
        address(2),
        PortDirection::FixedSrc(Port(1234)),
        PacketSize(60),
        PayloadPattern(0),
    )
    .unwrap();
    let udp = UdpPacket::new_view(&d.packet).unwrap();
    assert_eq!((udp.get_source(), udp.get_destination()), (1234, 40000));
    assert_eq!(udp.get_length(), 20);
    assert_eq!(d.local_port, 1234);
    assert_eq!(d.hop_limit, 5);

    let d = dispatch_udp_probe(
        probe(40000),
        address(1),
        address(2),
        PortDirection::FixedDest(Port(1234)),
        PacketSize(60),
        PayloadPattern(0),
    )
    .unwrap();
    let udp = UdpPacket::new_view(&d.packet).unwrap();
    assert_eq!((udp.get_source(), udp.get_destination()), (40000, 1234));
    assert_eq!(d.local_port, 40000);
    assert_eq!(d.remote_port, 0);
}

#[test]
fn echo_request_carries_identifier_and_sequence() {
    let packet = make_echo_request_icmp_packet(
        address(3),
        address(4),
        TraceId(0xabcd),
        Sequence(0x0102),
        3,
        PayloadPattern(0x77),
    );
    assert_eq!(packet.len(), 11);
    let echo = EchoRequestPacket::new_view(&packet).unwrap();
    assert_eq!(echo.get_icmp_type(), Icmpv6Type::EchoRequest);
    assert_eq!(echo.get_icmp_code(), Icmpv6Code(0));
    assert_eq!(echo.get_identifier(), 0xabcd);
    assert_eq!(echo.get_sequence(), 0x0102);
    assert_eq!(echo.payload(), &[0x77, 0x77, 0x77]);
    assert_eq!(echo.get_checksum(), icmp_ipv6_checksum(&packet, address(3), address(4)));
}

#[test]
fn udp_packet_is_laid_out_in_network_order() {
    let packet = make_udp_packet(address(3), address(4), 0x1388, 0x829a, 2, PayloadPattern(0x41));
    assert_eq!(&packet[..6], &[0x13, 0x88, 0x82, 0x9a, 0x00, 0x0a]);
    assert_eq!(&packet[8..], &[0x41, 0x41]);
    let checksum = udp_ipv6_checksum(&packet, address(3), address(4));
    assert_eq!(&packet[6..8], &checksum.to_be_bytes());
}

#[test]
fn payload_sizes() {
    assert_eq!(icmp_payload_size(48), 0);
    assert_eq!(icmp_payload_size(80), 32);
    assert_eq!(icmp_payload_size(1024), 976);
    assert_eq!(udp_payload_size(48), 0);
    assert_eq!(udp_payload_size(1024), 976);
}

#[test]
fn byte_order_of_fields() {
    let mut buf = [0u8; 8];
    write_u16(&mut buf, 1, 0x1234);
    assert_eq!(buf, [0, 0x12, 0x34, 0, 0, 0, 0, 0]);
    assert_eq!(read_u16(&buf, 1), 0x1234);
    write_u32(&mut buf, 4, 0xdeadbeef);
    assert_eq!(buf, [0, 0x12, 0x34, 0, 0xde, 0xad, 0xbe, 0xef]);
    assert_eq!(read_u32(&buf, 4), 0xdeadbeef);
    write_bytes(&mut buf, 2, &[9, 8, 7]);
    assert_eq!(buf, [0, 0x12, 9, 8, 7, 0xad, 0xbe, 0xef]);
}

#[test]
fn udp_round_trip() {
    let mut buf = [0xeeu8; 12];
    {
        let mut udp = UdpPacketMut::new(&mut buf).unwrap();
        udp.set_source(0x0102);
        udp.set_destination(0xfffe);
        udp.set_length(12);
        udp.set_checksum(0xa1b2);
        udp.set_payload(&[1, 2, 3]);
        assert_eq!(udp.packet().len(), 12);
    }
    assert_eq!(buf, [0x01, 0x02, 0xff, 0xfe, 0x00, 0x0c, 0xa1, 0xb2, 1, 2, 3, 0xee]);
    let udp = UdpPacket::new_view(&buf).unwrap();
    assert_eq!(udp.get_source(), 0x0102);
    assert_eq!(udp.get_destination(), 0xfffe);
    assert_eq!(udp.get_length(), 12);
    assert_eq!(udp.get_checksum(), 0xa1b2);
    assert_eq!(udp.payload(), &[1, 2, 3, 0xee]);
    assert_eq!(udp.packet(), &buf);
    assert_eq!(UdpPacket::minimum_packet_size(), 8);
}

#[test]
fn echo_round_trip() {
    let mut buf = [0u8; 10];
    {
        let mut echo = EchoRequestPacketMut::new(&mut buf).unwrap();
        echo.set_icmp_type(Icmpv6Type::EchoRequest);
        echo.set_icmp_code(Icmpv6Code(0));
        echo.set_checksum(0x0a0b);
        echo.set_identifier(0x1234);
        echo.set_sequence(0x5678);
        echo.set_payload(&[0xaa, 0xbb]);
    }
    assert_eq!(buf, [128, 0, 0x0a, 0x0b, 0x12, 0x34, 0x56, 0x78, 0xaa, 0xbb]);
    {
        let mut reply = EchoReplyPacketMut::new(&mut buf).unwrap();
        reply.set_icmp_type(Icmpv6Type::EchoReply);
        reply.set_identifier(0x4321);
        reply.set_sequence(0x8765);
        reply.set_icmp_code(Icmpv6Code(2));
        reply.set_checksum(0x0c0d);
        reply.set_payload(&[0xcc]);
        assert_eq!(reply.packet()[0], 129);
    }
    let reply = EchoReplyPacket::new_view(&buf).unwrap();
    assert_eq!(reply.get_icmp_type(), Icmpv6Type::EchoReply);
    assert_eq!(reply.get_icmp_code(), Icmpv6Code(2));
    assert_eq!(reply.get_checksum(), 0x0c0d);
    assert_eq!(reply.get_identifier(), 0x4321);
    assert_eq!(reply.get_sequence(), 0x8765);
    assert_eq!(reply.payload(), &[0xcc, 0xbb]);
    assert_eq!(reply.packet().len(), 10);
    assert_eq!(EchoReplyPacket::minimum_packet_size(), 8);
    assert_eq!(EchoRequestPacket::minimum_packet_size(), 8);
}

#[test]
fn error_message_round_trip() {
    let mut buf = [0u8; 9];
    {
        let mut te = TimeExceededPacketMut::new(&mut buf).unwrap();
        te.set_icmp_type(Icmpv6Type::TimeExceeded);
        te.set_icmp_code(Icmpv6Code(1));
        te.set_checksum(0xbeef);
        te.set_payload(&[0x60]);
        assert_eq!(te.packet().len(), 9);
    }
    assert_eq!(buf, [3, 1, 0xbe, 0xef, 0, 0, 0, 0, 0x60]);
    let te = TimeExceededPacket::new_view(&buf).unwrap();
    assert_eq!(te.get_icmp_type(), Icmpv6Type::TimeExceeded);
    assert_eq!(te.get_icmp_code(), Icmpv6Code(1));
    assert_eq!(te.get_checksum(), 0xbeef);
    assert_eq!(te.payload(), &[0x60]);
    assert_eq!(te.packet(), &buf);
    {
        let mut du = DestinationUnreachablePacketMut::new(&mut buf).unwrap();
        du.set_icmp_type(Icmpv6Type::DestinationUnreachable);
        du.set_icmp_code(Icmpv6Code(4));
        du.set_checksum(0x0102);
        du.set_payload(&[0x61]);
        assert_eq!(du.packet().len(), 9);
    }
    let du = DestinationUnreachablePacket::new_view(&buf).unwrap();
    assert_eq!(du.get_icmp_type(), Icmpv6Type::DestinationUnreachable);
    assert_eq!(du.get_icmp_code(), Icmpv6Code(4));
    assert_eq!(du.get_checksum(), 0x0102);
    assert_eq!(du.payload(), &[0x61]);
    assert_eq!(du.packet().len(), 9);
    assert_eq!(TimeExceededPacket::minimum_packet_size(), 8);
    assert_eq!(DestinationUnreachablePacket::minimum_packet_size(), 8);
}

#[test]
fn message_types_are_classified() {
    assert_eq!(Icmpv6Type::from_id(128), Icmpv6Type::EchoRequest);
    assert_eq!(Icmpv6Type::from_id(129), Icmpv6Type::EchoReply);
    assert_eq!(Icmpv6Type::from_id(1), Icmpv6Type::DestinationUnreachable);
    assert_eq!(Icmpv6Type::from_id(3), Icmpv6Type::TimeExceeded);
    assert_eq!(Icmpv6Type::from_id(2), Icmpv6Type::Other(2));
    assert_eq!(Icmpv6Type::from_id(135), Icmpv6Type::Other(135));
    for id in 0..=255u8 {
        assert_eq!(Icmpv6Type::from_id(id).id(), id);
    }
    let mut buf = [0u8; 8];
    {
        let mut m = IcmpPacketMut::new(&mut buf).unwrap();
        m.set_icmp_type(Icmpv6Type::Other(135));
        m.set_icmp_code(Icmpv6Code(9));
        m.set_checksum(0x1122);
        m.set_payload(&[]);
        assert_eq!(m.packet().len(), 8);
    }
    let m = IcmpPacket::new_view(&buf).unwrap();
    assert_eq!(m.get_icmp_type(), Icmpv6Type::Other(135));
    assert_eq!(m.get_icmp_code(), Icmpv6Code(9));
    assert_eq!(m.get_checksum(), 0x1122);
    assert_eq!(m.payload().len(), 0);
    assert_eq!(m.packet(), &buf);
    assert_eq!(IcmpPacket::minimum_packet_size(), 8);
}

#[test]
fn ipv6_round_trip() {
    let mut buf = [0u8; 42];
    {
        let mut ip = Ipv6PacketMut::new(&mut buf).unwrap();
        ip.set_version(6);
        ip.set_traffic_class(0xa5);
        ip.set_flow_label(0xabcde);
        ip.set_payload_length(2);
        ip.set_next_header(58);
        ip.set_hop_limit(64);
        ip.set_source_address(address(1));
        ip.set_destination_address(address(2));
        ip.set_payload(&[0xf0, 0x0f]);
        assert_eq!(ip.packet().len(), 42);
    }
    assert_eq!(&buf[..8], &[0x6a, 0x5a, 0xbc, 0xde, 0x00, 0x02, 58, 64]);
    let ip = Ipv6Packet::new_view(&buf).unwrap();
    assert_eq!(ip.get_version(), 6);
    assert_eq!(ip.get_traffic_class(), 0xa5);
    assert_eq!(ip.get_flow_label(), 0xabcde);
    assert_eq!(ip.get_payload_length(), 2);
    assert_eq!(ip.get_next_header(), 58);
    assert_eq!(ip.get_hop_limit(), 64);
    assert_eq!(ip.get_source_address(), address(1));
    assert_eq!(ip.get_destination_address(), address(2));
    assert_eq!(ip.payload(), &[0xf0, 0x0f]);
    assert_eq!(ip.packet(), &buf);
    assert_eq!(Ipv6Packet::minimum_packet_size(), 40);
}

#[test]
fn ipv6_narrow_fields_keep_their_low_bits() {
    let mut buf = [0xffu8; 40];
    {
        let mut ip = Ipv6PacketMut::new(&mut buf).unwrap();
        ip.set_version(0x16);
        ip.set_flow_label(0xfff0_0001);
        ip.set_traffic_class(0);
    }
    let ip = Ipv6Packet::new_view(&buf).unwrap();
    assert_eq!(ip.get_version(), 6);
    assert_eq!(ip.get_traffic_class(), 0);
    assert_eq!(ip.get_flow_label(), 1);
}

#[test]
fn tcp_round_trip() {
    let mut buf = [0u8; 21];
    {
        let mut tcp = TcpPacketMut::new(&mut buf).unwrap();
        tcp.set_source(0x0102);
        tcp.set_destination(0x0304);
        tcp.set_sequence(0x05060708);
        tcp.set_acknowledgement(0x090a0b0c);
        tcp.set_data_offset(5);
        tcp.set_flags(0x12);
        tcp.set_window_size(0x0d0e);
        tcp.set_checksum(0x0f10);
        tcp.set_urgent_pointer(0x1112);
        tcp.set_payload(&[0x99]);
        assert_eq!(tcp.packet().len(), 21);
    }
    assert_eq!(
        buf,
        [1, 2, 3, 4, 5, 6, 7, 8, 9, 10, 11, 12, 0x50, 0x12, 13, 14, 15, 16, 17, 18, 0x99]
    );
    let tcp = TcpPacket::new_view(&buf).unwrap();
    assert_eq!(tcp.get_source(), 0x0102);
    assert_eq!(tcp.get_destination(), 0x0304);
    assert_eq!(tcp.get_sequence(), 0x05060708);
    assert_eq!(tcp.get_acknowledgement(), 0x090a0b0c);
    assert_eq!(tcp.get_data_offset(), 5);
    assert_eq!(tcp.get_flags(), 0x12);
    assert_eq!(tcp.get_window_size(), 0x0d0e);
    assert_eq!(tcp.get_checksum(), 0x0f10);
    assert_eq!(tcp.get_urgent_pointer(), 0x1112);
    assert_eq!(tcp.payload(), &[0x99]);
    assert_eq!(tcp.packet(), &buf);
    assert_eq!(TcpPacket::minimum_packet_size(), 20);
}

#[test]
fn views_need_a_whole_header() {
    assert!(UdpPacket::new_view(&[0u8; 7]).is_none());
    assert!(UdpPacket::new_view(&[0u8; 8]).is_some());
    assert!(IcmpPacket::new_view(&[0u8; 7]).is_none());
    assert!(EchoRequestPacket::new_view(&[0u8; 7]).is_none());
    assert!(EchoReplyPacket::new_view(&[0u8; 7]).is_none());
    assert!(TimeExceededPacket::new_view(&[0u8; 7]).is_none());
    assert!(DestinationUnreachablePacket::new_view(&[0u8; 7]).is_none());
    assert!(Ipv6Packet::new_view(&[0u8; 39]).is_none());
    assert!(Ipv6Packet::new_view(&[0u8; 40]).is_some());
    assert!(TcpPacket::new_view(&[0u8; 19]).is_none());
    assert!(TcpPacket::new_view(&[0u8; 20]).is_some());
    assert!(UdpPacketMut::new(&mut [0u8; 7]).is_none());
    assert!(IcmpPacketMut::new(&mut [0u8; 7]).is_none());
    assert!(EchoRequestPacketMut::new(&mut [0u8; 7]).is_none());
    assert!(EchoReplyPacketMut::new(&mut [0u8; 7]).is_none());
    assert!(TimeExceededPacketMut::new(&mut [0u8; 7]).is_none());
    assert!(DestinationUnreachablePacketMut::new(&mut [0u8; 7]).is_none());
    assert!(Ipv6PacketMut::new(&mut [0u8; 39]).is_none());
    assert!(TcpPacketMut::new(&mut [0u8; 19]).is_none());
}

#[test]
fn sockets_are_raw_ipv6_and_nonblocking() {
    let icmp = make_icmp_send_socket();
    let udp = make_udp_send_socket();
    let recv = make_recv_socket();
    for s in [icmp, udp, recv] {
        assert_eq!(s.family, SocketFamily::Ipv6);
        assert_eq!(s.kind, SocketKind::Raw);
        assert!(s.nonblocking);
    }
    assert_eq!(icmp.protocol, SocketProtocol::Icmpv6);
    assert_eq!(udp.protocol, SocketProtocol::Udp);
    assert_eq!(recv.protocol, SocketProtocol::Icmpv6);
    assert_eq!(SocketProtocol::Icmpv6.number(), 58);
    assert_eq!(SocketProtocol::Udp.number(), 17);
}
