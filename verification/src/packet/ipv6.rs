//! The fixed IPv6 header: version, traffic class and flow label in the
//! first four bytes, then payload length, next header and hop limit, and
//! the two addresses.

use crate::packet::bytes::{
    be16_at, lemma_be16_of_parts, put_be16, put_bytes, read_u16, read_u8, tail, write_bytes, write_u16, write_u8,
};
use crate::types::Ipv6Address;
use vstd::prelude::*;

verus! {

/// The size of the fixed IPv6 header.
pub const IPV6_HEADER_SIZE: usize = 40;

/// The version field of the header `s`: its first four bits.
pub open spec fn ipv6_version(s: Seq<u8>) -> u8 {
    s[0] / 16
}

/// The traffic class of the header `s`: the eight bits after the version.
pub open spec fn ipv6_traffic_class(s: Seq<u8>) -> u8 {
    ((s[0] % 16) * 16 + s[1] / 16) as u8
}

/// The flow label of the header `s`: the twenty bits after the traffic class.
pub open spec fn ipv6_flow_label(s: Seq<u8>) -> u32 {
    ((s[1] % 16) * 65536 + s[2] * 256 + s[3]) as u32
}

/// The payload length of the header `s`.
pub open spec fn ipv6_payload_length(s: Seq<u8>) -> u16 {
    be16_at(s, 4)
}

/// The next-header number of the header `s`.
pub open spec fn ipv6_next_header(s: Seq<u8>) -> u8 {
    s[6]
}

/// The hop limit of the header `s`.
pub open spec fn ipv6_hop_limit(s: Seq<u8>) -> u8 {
    s[7]
}

/// The source address of the header `s`.
pub open spec fn ipv6_source(s: Seq<u8>) -> Seq<u8> {
    s.subrange(8, 24)
}

/// The destination address of the header `s`.
pub open spec fn ipv6_destination(s: Seq<u8>) -> Seq<u8> {
    s.subrange(24, 40)
}

/// What follows the fixed header in the packet `s`.
pub open spec fn ipv6_payload(s: Seq<u8>) -> Seq<u8> {
    tail(s, 40)
}

/// The first byte of a header: `version` before the high half of the
/// traffic class that `byte` held.
pub open spec fn with_version(byte: u8, version: u8) -> u8 {
    ((version % 16) * 16 + byte % 16) as u8
}

/// `s` with the traffic class `val`, version and flow label as they were.
pub open spec fn put_traffic_class(s: Seq<u8>, val: u8) -> Seq<u8> {
    s.update(0, ((s[0] / 16) * 16 + val / 16) as u8).update(
        1,
        ((val % 16) * 16 + s[1] % 16) as u8,
    )
}

/// `s` with the low twenty bits of `val` as flow label, the traffic class
/// as it was.
pub open spec fn put_flow_label(s: Seq<u8>, val: u32) -> Seq<u8> {
    s.update(1, ((s[1] / 16) * 16 + val / 65536 % 16) as u8).update(
        2,
        (val / 256 % 256) as u8,
    ).update(3, (val % 256) as u8)
}

/// A byte is its two halves: the high one times sixteen, and the low one.
proof fn lemma_halves(high: int, low: int)
    requires
        0 <= high < 16,
        0 <= low < 16,
    ensures
        (high * 16 + low) / 16 == high,
        (high * 16 + low) % 16 == low,
        0 <= high * 16 + low < 256,
{
}

/// `s` with all the fields of the header written, in the order of the
/// header.
pub open spec fn ipv6_header_written(
    s: Seq<u8>,
    version: u8,
    traffic_class: u8,
    flow_label: u32,
    payload_length: u16,
    next_header: u8,
    hop_limit: u8,
    source: Seq<u8>,
    destination: Seq<u8>,
) -> Seq<u8> {
    let a = s.update(0, with_version(s[0], version));
    let b = put_flow_label(put_traffic_class(a, traffic_class), flow_label);
    let c = put_be16(b, 4, payload_length).update(6, next_header).update(7, hop_limit);
    put_bytes(put_bytes(c, 8, source), 24, destination)
}

/// Fields that are written are the fields that are read, as far as they
/// fit their field: of the version its low four bits are kept, of the flow
/// label its low twenty. The payload is as it was.
pub proof fn lemma_ipv6_round_trip(
    s: Seq<u8>,
    version: u8,
    traffic_class: u8,
    flow_label: u32,
    payload_length: u16,
    next_header: u8,
    hop_limit: u8,
    source: Seq<u8>,
    destination: Seq<u8>,
)
    requires
        s.len() >= 40,
        version < 16,
        flow_label < 1048576,
        source.len() == 16,
        destination.len() == 16,
    ensures
        ({
            let t = ipv6_header_written(
                s,
                version,
                traffic_class,
                flow_label,
                payload_length,
                next_header,
                hop_limit,
                source,
                destination,
            );
            &&& t.len() == s.len()
            &&& ipv6_version(t) == version
            &&& ipv6_traffic_class(t) == traffic_class
            &&& ipv6_flow_label(t) == flow_label
            &&& ipv6_payload_length(t) == payload_length
            &&& ipv6_next_header(t) == next_header
            &&& ipv6_hop_limit(t) == hop_limit
            &&& ipv6_source(t) == source
            &&& ipv6_destination(t) == destination
            &&& ipv6_payload(t) == ipv6_payload(s)
        }),
{
    lemma_be16_of_parts(payload_length);
    let a = s.update(0, with_version(s[0], version));
    let b1 = put_traffic_class(a, traffic_class);
    let b = put_flow_label(b1, flow_label);
    let c = put_be16(b, 4, payload_length).update(6, next_header).update(7, hop_limit);
    let t = put_bytes(put_bytes(c, 8, source), 24, destination);
    lemma_halves(version as int, s[0] as int % 16);
    assert(a[0] == version * 16 + s[0] % 16);
    lemma_halves(version as int, traffic_class as int / 16);
    assert(b1[0] == version * 16 + traffic_class / 16);
    lemma_halves(traffic_class as int % 16, s[1] as int % 16);
    assert(b1[1] == (traffic_class % 16) * 16 + s[1] % 16);
    assert(flow_label / 65536 < 16);
    lemma_halves(traffic_class as int % 16, flow_label as int / 65536);
    assert(b[0] == b1[0]);
    assert(b[1] == (traffic_class % 16) * 16 + flow_label / 65536);
    assert(b[2] == flow_label / 256 % 256);
    assert(b[3] == flow_label % 256);
    assert(t[0] == b[0] && t[1] == b[1] && t[2] == b[2] && t[3] == b[3]);
    assert(ipv6_version(t) == version);
    assert(ipv6_traffic_class(t) == traffic_class);
    assert(ipv6_flow_label(t) == flow_label);
    assert(t[4] == c[4] && t[5] == c[5] && t[6] == c[6] && t[7] == c[7]);
    assert(ipv6_source(t) =~= source);
    assert(ipv6_destination(t) =~= destination);
    assert(ipv6_payload(t) =~= ipv6_payload(s));
}

/// The sixteen bytes of `buf` from `off` on, as an address.
fn read_address(buf: &[u8], off: usize) -> (r: Ipv6Address)
    requires
        off + 16 <= buf@.len(),
    ensures
        r@ == buf@.subrange(off as int, off + 16),
{
    let len: usize = buf.len();
    let mut octets = [0u8;16];
    let mut i: usize = 0;
    while i < 16
        invariant
            i <= 16,
            off + 16 <= len,
            len == buf@.len(),
            forall|j: int| 0 <= j < i ==> octets@[j] == buf@[off + j],
        decreases 16 - i,
    {
        octets[i] = buf[off + i];
        i = i + 1;
    }
    assert(octets@ =~= buf@.subrange(off as int, off + 16));
    Ipv6Address { octets }
}

/// A read-only view of an IPv6 packet.
pub struct Ipv6Packet<'a> {
    buf: &'a [u8],
}

impl<'a> View for Ipv6Packet<'a> {
    type V = Seq<u8>;

    closed spec fn view(&self) -> Seq<u8> {
        self.buf@
    }
}

impl<'a> Ipv6Packet<'a> {
    #[verifier::type_invariant]
    spec fn long_enough(self) -> bool {
        self.buf@.len() >= 40
    }

    /// The least number of bytes that an IPv6 packet has.
    pub fn minimum_packet_size() -> (r: usize)
        ensures
            r == 40,
    {
        IPV6_HEADER_SIZE
    }

    /// A view of `packet`, if it is long enough to hold the header.
    pub fn new_view(packet: &'a [u8]) -> (r: Option<Self>)
        ensures
            r is Some <==> packet@.len() >= 40,
            r matches Some(p) ==> p@ == packet@,
    {
        if packet.len() >= IPV6_HEADER_SIZE {
            Some(Ipv6Packet { buf: packet })
        } else {
            None
        }
    }

    pub fn get_version(&self) -> (r: u8)
        ensures
            r == ipv6_version(self@),
    {
        proof {
            use_type_invariant(self);
        }
        read_u8(self.buf, 0) / 16
    }

    pub fn get_traffic_class(&self) -> (r: u8)
        ensures
            r == ipv6_traffic_class(self@),
    {
        proof {
            use_type_invariant(self);
        }
        (read_u8(self.buf, 0) % 16) * 16 + read_u8(self.buf, 1) / 16
    }

    pub fn get_flow_label(&self) -> (r: u32)
        ensures
            r == ipv6_flow_label(self@),
    {
        proof {
            use_type_invariant(self);
        }
        let high: u32 = (read_u8(self.buf, 1) % 16) as u32;
        let mid: u32 = read_u8(self.buf, 2) as u32;
        let low: u32 = read_u8(self.buf, 3) as u32;
        high * 65536 + mid * 256 + low
    }

    pub fn get_payload_length(&self) -> (r: u16)
        ensures
            r == ipv6_payload_length(self@),
    {
        proof {
            use_type_invariant(self);
        }
        read_u16(self.buf, 4)
    }

    pub fn get_next_header(&self) -> (r: u8)
        ensures
            r == ipv6_next_header(self@),
    {
        proof {
            use_type_invariant(self);
        }
        read_u8(self.buf, 6)
    }

    pub fn get_hop_limit(&self) -> (r: u8)
        ensures
            r == ipv6_hop_limit(self@),
    {
        proof {
            use_type_invariant(self);
        }
        read_u8(self.buf, 7)
    }

    pub fn get_source_address(&self) -> (r: Ipv6Address)
        ensures
            r@ == ipv6_source(self@),
    {
        proof {
            use_type_invariant(self);
        }
        read_address(self.buf, 8)
    }

    pub fn get_destination_address(&self) -> (r: Ipv6Address)
        ensures
            r@ == ipv6_destination(self@),
    {
        proof {
            use_type_invariant(self);
        }
        read_address(self.buf, 24)
    }

    /// The whole packet.
    pub fn packet(&self) -> (r: &'a [u8])
        ensures
            r@ == self@,
            r@.len() >= 40,
    {
        proof {
            use_type_invariant(self);
        }
        self.buf
    }

    /// What follows the fixed header.
    pub fn payload(&self) -> (r: &'a [u8])
        ensures
            r@ == ipv6_payload(self@),
            r@.len() == self@.len() - 40,
    {
        proof {
            use_type_invariant(self);
        }
        let n: usize = self.buf.len();
        &self.buf[40..n]
    }
}

/// A view of an IPv6 packet through which its fields are written.
pub struct Ipv6PacketMut<'a> {
    /// The bytes that the view reads and writes.
    pub buf: &'a mut [u8],
}

impl<'a> View for Ipv6PacketMut<'a> {
    type V = Seq<u8>;

    open spec fn view(&self) -> Seq<u8> {
        self.buf@
    }
}

impl<'a> Ipv6PacketMut<'a> {
    /// Whether the buffer is long enough to hold the header.
    pub open spec fn wf(&self) -> bool {
        self.buf@.len() >= 40
    }

    /// A view of `packet`, if it is long enough to hold the header.
    pub fn new(packet: &'a mut [u8]) -> (r: Option<Self>)
        ensures
            r is Some <==> old(packet)@.len() >= 40,
            r matches Some(p) ==> p@ == old(packet)@ && p.wf() && final(p.buf)@ == final(packet)@,
            r is None ==> final(packet)@ == old(packet)@,
    {
        if packet.len() >= IPV6_HEADER_SIZE {
            Some(Ipv6PacketMut { buf: packet })
        } else {
            None
        }
    }

    /// Writes the low four bits of `val` as the version.
    pub fn set_version(&mut self, val: u8)
        requires
            old(self).wf(),
        ensures
            final(self)@ == old(self)@.update(0, with_version(old(self)@[0], val)),
            final(self).wf(),
            final(final(self).buf)@ == final(old(self).buf)@,
    {
        let first: u8 = read_u8(self.buf, 0);
        write_u8(self.buf, 0, (val % 16) * 16 + first % 16);
    }

    pub fn set_traffic_class(&mut self, val: u8)
        requires
            old(self).wf(),
        ensures
            final(self)@ == put_traffic_class(old(self)@, val),
            final(self).wf(),
            final(final(self).buf)@ == final(old(self).buf)@,
    {
        let first: u8 = read_u8(self.buf, 0);
        let second: u8 = read_u8(self.buf, 1);
        write_u8(self.buf, 0, (first / 16) * 16 + val / 16);
        write_u8(self.buf, 1, (val % 16) * 16 + second % 16);
    }

    /// Writes the low twenty bits of `val` as the flow label.
    pub fn set_flow_label(&mut self, val: u32)
        requires
            old(self).wf(),
        ensures
            final(self)@ == put_flow_label(old(self)@, val),
            final(self).wf(),
            final(final(self).buf)@ == final(old(self).buf)@,
    {
        let second: u8 = read_u8(self.buf, 1);
        write_u8(self.buf, 1, (second / 16) * 16 + (val / 65536 % 16) as u8);
        write_u8(self.buf, 2, (val / 256 % 256) as u8);
        write_u8(self.buf, 3, (val % 256) as u8);
    }

    pub fn set_payload_length(&mut self, val: u16)
        requires
            old(self).wf(),
        ensures
            final(self)@ == put_be16(old(self)@, 4, val),
            final(self).wf(),
            final(final(self).buf)@ == final(old(self).buf)@,
    {
        write_u16(self.buf, 4, val);
    }

    pub fn set_next_header(&mut self, val: u8)
        requires
            old(self).wf(),
        ensures
            final(self)@ == old(self)@.update(6, val),
            final(self).wf(),
            final(final(self).buf)@ == final(old(self).buf)@,
    {
        write_u8(self.buf, 6, val);
    }

    pub fn set_hop_limit(&mut self, val: u8)
        requires
            old(self).wf(),
        ensures
            final(self)@ == old(self)@.update(7, val),
            final(self).wf(),
            final(final(self).buf)@ == final(old(self).buf)@,
    {
        write_u8(self.buf, 7, val);
    }

    pub fn set_source_address(&mut self, val: Ipv6Address)
        requires
            old(self).wf(),
        ensures
            final(self)@ == put_bytes(old(self)@, 8, val@),
            final(self).wf(),
            final(final(self).buf)@ == final(old(self).buf)@,
    {
        write_bytes(self.buf, 8, val.octets.as_slice());
    }

    pub fn set_destination_address(&mut self, val: Ipv6Address)
        requires
            old(self).wf(),
        ensures
            final(self)@ == put_bytes(old(self)@, 24, val@),
            final(self).wf(),
            final(final(self).buf)@ == final(old(self).buf)@,
    {
        write_bytes(self.buf, 24, val.octets.as_slice());
    }

    /// Copies `vals` to the start of what follows the header.
    pub fn set_payload(&mut self, vals: &[u8])
        requires
            old(self).wf(),
            40 + vals@.len() <= old(self)@.len(),
        ensures
            final(self)@ == put_bytes(old(self)@, 40, vals@),
            final(self).wf(),
            final(final(self).buf)@ == final(old(self).buf)@,
    {
        write_bytes(self.buf, 40, vals);
    }

    /// The whole packet, as it stands.
    pub fn packet(&self) -> (r: &[u8])
        ensures
            r@ == self@,
    {
        &*self.buf
    }
}

} // verus!
