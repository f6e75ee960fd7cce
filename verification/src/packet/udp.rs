//! The UDP header: source port, destination port, length and checksum,
//! sixteen bits each, and then the payload.

use crate::packet::bytes::{
    be16_at, lemma_be16_of_parts, put_be16, put_bytes, read_u16, tail, write_bytes, write_u16,
};
use vstd::prelude::*;

verus! {

/// The size of the UDP header.
pub const UDP_HEADER_SIZE: usize = 8;

/// The source port of the UDP segment `s`.
pub open spec fn udp_source(s: Seq<u8>) -> u16 {
    be16_at(s, 0)
}

/// The destination port of the UDP segment `s`.
pub open spec fn udp_destination(s: Seq<u8>) -> u16 {
    be16_at(s, 2)
}

/// The length field of the UDP segment `s`.
pub open spec fn udp_length(s: Seq<u8>) -> u16 {
    be16_at(s, 4)
}

/// The checksum field of the UDP segment `s`.
pub open spec fn udp_checksum(s: Seq<u8>) -> u16 {
    be16_at(s, 6)
}

/// What follows the header in the UDP segment `s`.
pub open spec fn udp_payload(s: Seq<u8>) -> Seq<u8> {
    tail(s, 8)
}

/// `s` with the four fields of the header written, in the order of the
/// header.
pub open spec fn udp_header_written(
    s: Seq<u8>,
    source: u16,
    destination: u16,
    length: u16,
    checksum: u16,
) -> Seq<u8> {
    put_be16(put_be16(put_be16(put_be16(s, 0, source), 2, destination), 4, length), 6, checksum)
}

/// Fields that are written are the fields that are read, and the payload
/// is as it was.
pub proof fn lemma_udp_round_trip(
    s: Seq<u8>,
    source: u16,
    destination: u16,
    length: u16,
    checksum: u16,
)
    requires
        s.len() >= 8,
    ensures
        ({
            let t = udp_header_written(s, source, destination, length, checksum);
            &&& t.len() == s.len()
            &&& udp_source(t) == source
            &&& udp_destination(t) == destination
            &&& udp_length(t) == length
            &&& udp_checksum(t) == checksum
            &&& udp_payload(t) == udp_payload(s)
        }),
{
    lemma_be16_of_parts(source);
    lemma_be16_of_parts(destination);
    lemma_be16_of_parts(length);
    lemma_be16_of_parts(checksum);
    let t = udp_header_written(s, source, destination, length, checksum);
    assert(udp_payload(t) =~= udp_payload(s));
}

/// A read-only view of a UDP segment.
pub struct UdpPacket<'a> {
    buf: &'a [u8],
}

impl<'a> View for UdpPacket<'a> {
    type V = Seq<u8>;

    closed spec fn view(&self) -> Seq<u8> {
        self.buf@
    }
}

impl<'a> UdpPacket<'a> {
    #[verifier::type_invariant]
    spec fn long_enough(self) -> bool {
        self.buf@.len() >= 8
    }

    /// The least number of bytes that a UDP segment has.
    pub fn minimum_packet_size() -> (r: usize)
        ensures
            r == 8,
    {
        UDP_HEADER_SIZE
    }

    /// A view of `packet`, if it is long enough to hold the header.
    pub fn new_view(packet: &'a [u8]) -> (r: Option<Self>)
        ensures
            r is Some <==> packet@.len() >= 8,
            r matches Some(p) ==> p@ == packet@,
    {
        if packet.len() >= UDP_HEADER_SIZE {
            Some(UdpPacket { buf: packet })
        } else {
            None
        }
    }

    pub fn get_source(&self) -> (r: u16)
        ensures
            r == udp_source(self@),
    {
        proof {
            use_type_invariant(self);
        }
        read_u16(self.buf, 0)
    }

    pub fn get_destination(&self) -> (r: u16)
        ensures
            r == udp_destination(self@),
    {
        proof {
            use_type_invariant(self);
        }
        read_u16(self.buf, 2)
    }

    pub fn get_length(&self) -> (r: u16)
        ensures
            r == udp_length(self@),
    {
        proof {
            use_type_invariant(self);
        }
        read_u16(self.buf, 4)
    }

    pub fn get_checksum(&self) -> (r: u16)
        ensures
            r == udp_checksum(self@),
    {
        proof {
            use_type_invariant(self);
        }
        read_u16(self.buf, 6)
    }

    /// The whole segment.
    pub fn packet(&self) -> (r: &'a [u8])
        ensures
            r@ == self@,
            r@.len() >= 8,
    {
        proof {
            use_type_invariant(self);
        }
        self.buf
    }

    /// What follows the header.
    pub fn payload(&self) -> (r: &'a [u8])
        ensures
            r@ == udp_payload(self@),
            r@.len() == self@.len() - 8,
    {
        proof {
            use_type_invariant(self);
        }
        let n: usize = self.buf.len();
        &self.buf[8..n]
    }
}

/// A view of a UDP segment through which its fields are written.
pub struct UdpPacketMut<'a> {
    /// The bytes that the view reads and writes.
    pub buf: &'a mut [u8],
}

impl<'a> View for UdpPacketMut<'a> {
    type V = Seq<u8>;

    open spec fn view(&self) -> Seq<u8> {
        self.buf@
    }
}

impl<'a> UdpPacketMut<'a> {
    /// Whether the buffer is long enough to hold the header.
    pub open spec fn wf(&self) -> bool {
        self.buf@.len() >= 8
    }

    /// A view of `packet`, if it is long enough to hold the header.
    pub fn new(packet: &'a mut [u8]) -> (r: Option<Self>)
        ensures
            r is Some <==> old(packet)@.len() >= 8,
            r matches Some(p) ==> p@ == old(packet)@ && p.wf() && final(p.buf)@ == final(packet)@,
            r is None ==> final(packet)@ == old(packet)@,
    {
        if packet.len() >= UDP_HEADER_SIZE {
            Some(UdpPacketMut { buf: packet })
        } else {
            None
        }
    }

    pub fn set_source(&mut self, val: u16)
        requires
            old(self).wf(),
        ensures
            final(self)@ == put_be16(old(self)@, 0, val),
            final(self).wf(),
            final(final(self).buf)@ == final(old(self).buf)@,
    {
        write_u16(self.buf, 0, val);
    }

    pub fn set_destination(&mut self, val: u16)
        requires
            old(self).wf(),
        ensures
            final(self)@ == put_be16(old(self)@, 2, val),
            final(self).wf(),
            final(final(self).buf)@ == final(old(self).buf)@,
    {
        write_u16(self.buf, 2, val);
    }

    pub fn set_length(&mut self, val: u16)
        requires
            old(self).wf(),
        ensures
            final(self)@ == put_be16(old(self)@, 4, val),
            final(self).wf(),
            final(final(self).buf)@ == final(old(self).buf)@,
    {
        write_u16(self.buf, 4, val);
    }

    pub fn set_checksum(&mut self, val: u16)
        requires
            old(self).wf(),
        ensures
            final(self)@ == put_be16(old(self)@, 6, val),
            final(self).wf(),
            final(final(self).buf)@ == final(old(self).buf)@,
    {
        write_u16(self.buf, 6, val);
    }

    /// Copies `vals` to the start of the payload.
    pub fn set_payload(&mut self, vals: &[u8])
        requires
            old(self).wf(),
            8 + vals@.len() <= old(self)@.len(),
        ensures
            final(self)@ == put_bytes(old(self)@, 8, vals@),
            final(self).wf(),
            final(final(self).buf)@ == final(old(self).buf)@,
    {
        write_bytes(self.buf, 8, vals);
    }

    /// The whole segment, as it stands.
    pub fn packet(&self) -> (r: &[u8])
        ensures
            r@ == self@,
    {
        &*self.buf
    }
}

} // verus!
