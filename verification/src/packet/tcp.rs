//! The fixed part of the TCP header: the two ports, sequence and
//! acknowledgement number, data offset and flags, window, checksum and
//! urgent pointer.

use crate::packet::bytes::{
    be16_at, be32_at, lemma_be16_of_parts, lemma_put_then_get_be32, put_be16, put_be32, put_bytes, read_u16, read_u32, read_u8, tail,
    write_bytes, write_u16, write_u32, write_u8,
};
use vstd::prelude::*;

verus! {

/// The size of the fixed part of the TCP header.
pub const TCP_HEADER_SIZE: usize = 20;

/// The source port of the TCP segment `s`.
pub open spec fn tcp_source(s: Seq<u8>) -> u16 {
    be16_at(s, 0)
}

/// The destination port of the TCP segment `s`.
pub open spec fn tcp_destination(s: Seq<u8>) -> u16 {
    be16_at(s, 2)
}

/// The sequence number of the TCP segment `s`.
pub open spec fn tcp_sequence(s: Seq<u8>) -> u32 {
    be32_at(s, 4)
}

/// The acknowledgement number of the TCP segment `s`.
pub open spec fn tcp_acknowledgement(s: Seq<u8>) -> u32 {
    be32_at(s, 8)
}

/// The data offset of the TCP segment `s`, in 32-bit words.
pub open spec fn tcp_data_offset(s: Seq<u8>) -> u8 {
    s[12] / 16
}

/// The flag bits of the TCP segment `s`.
pub open spec fn tcp_flags(s: Seq<u8>) -> u8 {
    s[13]
}

/// The window size of the TCP segment `s`.
pub open spec fn tcp_window_size(s: Seq<u8>) -> u16 {
    be16_at(s, 14)
}

/// The checksum field of the TCP segment `s`.
pub open spec fn tcp_checksum(s: Seq<u8>) -> u16 {
    be16_at(s, 16)
}

/// The urgent pointer of the TCP segment `s`.
pub open spec fn tcp_urgent_pointer(s: Seq<u8>) -> u16 {
    be16_at(s, 18)
}

/// What follows the fixed part in the TCP segment `s`.
pub open spec fn tcp_payload(s: Seq<u8>) -> Seq<u8> {
    tail(s, 20)
}

/// The byte that holds the data offset: `offset` before the reserved bits
/// that `byte` held.
pub open spec fn with_data_offset(byte: u8, offset: u8) -> u8 {
    ((offset % 16) * 16 + byte % 16) as u8
}

/// `s` with all the fields of the fixed part written, in the order of the
/// header.
pub open spec fn tcp_header_written(
    s: Seq<u8>,
    source: u16,
    destination: u16,
    sequence: u32,
    acknowledgement: u32,
    data_offset: u8,
    flags: u8,
    window_size: u16,
    checksum: u16,
    urgent_pointer: u16,
) -> Seq<u8> {
    let a = put_be32(put_be32(put_be16(put_be16(s, 0, source), 2, destination), 4, sequence), 8, acknowledgement);
    let b = a.update(12, with_data_offset(a[12], data_offset)).update(13, flags);
    put_be16(put_be16(put_be16(b, 14, window_size), 16, checksum), 18, urgent_pointer)
}

/// Fields that are written are the fields that are read, as far as they
/// fit their field: of the data offset its low four bits are kept. What
/// follows the fixed part is as it was.
pub proof fn lemma_tcp_round_trip(
    s: Seq<u8>,
    source: u16,
    destination: u16,
    sequence: u32,
    acknowledgement: u32,
    data_offset: u8,
    flags: u8,
    window_size: u16,
    checksum: u16,
    urgent_pointer: u16,
)
    requires
        s.len() >= 20,
        data_offset < 16,
    ensures
        ({
            let t = tcp_header_written(
                s,
                source,
                destination,
                sequence,
                acknowledgement,
                data_offset,
                flags,
                window_size,
                checksum,
                urgent_pointer,
            );
            &&& t.len() == s.len()
            &&& tcp_source(t) == source
            &&& tcp_destination(t) == destination
            &&& tcp_sequence(t) == sequence
            &&& tcp_acknowledgement(t) == acknowledgement
            &&& tcp_data_offset(t) == data_offset
            &&& tcp_flags(t) == flags
            &&& tcp_window_size(t) == window_size
            &&& tcp_checksum(t) == checksum
            &&& tcp_urgent_pointer(t) == urgent_pointer
            &&& tcp_payload(t) == tcp_payload(s)
        }),
{
    lemma_be16_of_parts(source);
    lemma_be16_of_parts(destination);
    lemma_be16_of_parts(window_size);
    lemma_be16_of_parts(checksum);
    lemma_be16_of_parts(urgent_pointer);
    let a1 = put_be16(put_be16(s, 0, source), 2, destination);
    let a2 = put_be32(a1, 4, sequence);
    let a3 = put_be32(a2, 8, acknowledgement);
    lemma_put_then_get_be32(a1, 4, sequence);
    lemma_put_then_get_be32(a2, 8, acknowledgement);
    let t = tcp_header_written(
        s,
        source,
        destination,
        sequence,
        acknowledgement,
        data_offset,
        flags,
        window_size,
        checksum,
        urgent_pointer,
    );
    assert(be32_at(t, 4) == be32_at(a2, 4));
    assert(be32_at(t, 8) == be32_at(a3, 8));
    assert(tcp_payload(t) =~= tcp_payload(s));
}

/// A read-only view of a TCP segment.
pub struct TcpPacket<'a> {
    buf: &'a [u8],
}

impl<'a> View for TcpPacket<'a> {
    type V = Seq<u8>;

    closed spec fn view(&self) -> Seq<u8> {
        self.buf@
    }
}

impl<'a> TcpPacket<'a> {
    #[verifier::type_invariant]
    spec fn long_enough(self) -> bool {
        self.buf@.len() >= 20
    }

    /// The least number of bytes that a TCP segment has.
    pub fn minimum_packet_size() -> (r: usize)
        ensures
            r == 20,
    {
        TCP_HEADER_SIZE
    }

    /// A view of `packet`, if it is long enough to hold the fixed part.
    pub fn new_view(packet: &'a [u8]) -> (r: Option<Self>)
        ensures
            r is Some <==> packet@.len() >= 20,
            r matches Some(p) ==> p@ == packet@,
    {
        if packet.len() >= TCP_HEADER_SIZE {
            Some(TcpPacket { buf: packet })
        } else {
            None
        }
    }

    pub fn get_source(&self) -> (r: u16)
        ensures
            r == tcp_source(self@),
    {
        proof {
            use_type_invariant(self);
        }
        read_u16(self.buf, 0)
    }

    pub fn get_destination(&self) -> (r: u16)
        ensures
            r == tcp_destination(self@),
    {
        proof {
            use_type_invariant(self);
        }
        read_u16(self.buf, 2)
    }

    pub fn get_sequence(&self) -> (r: u32)
        ensures
            r == tcp_sequence(self@),
    {
        proof {
            use_type_invariant(self);
        }
        read_u32(self.buf, 4)
    }

    pub fn get_acknowledgement(&self) -> (r: u32)
        ensures
            r == tcp_acknowledgement(self@),
    {
        proof {
            use_type_invariant(self);
        }
        read_u32(self.buf, 8)
    }

    pub fn get_data_offset(&self) -> (r: u8)
        ensures
            r == tcp_data_offset(self@),
    {
        proof {
            use_type_invariant(self);
        }
        read_u8(self.buf, 12) / 16
    }

    pub fn get_flags(&self) -> (r: u8)
        ensures
            r == tcp_flags(self@),
    {
        proof {
            use_type_invariant(self);
        }
        read_u8(self.buf, 13)
    }

    pub fn get_window_size(&self) -> (r: u16)
        ensures
            r == tcp_window_size(self@),
    {
        proof {
            use_type_invariant(self);
        }
        read_u16(self.buf, 14)
    }

    pub fn get_checksum(&self) -> (r: u16)
        ensures
            r == tcp_checksum(self@),
    {
        proof {
            use_type_invariant(self);
        }
        read_u16(self.buf, 16)
    }

    pub fn get_urgent_pointer(&self) -> (r: u16)
        ensures
            r == tcp_urgent_pointer(self@),
    {
        proof {
            use_type_invariant(self);
        }
        read_u16(self.buf, 18)
    }

    /// The whole segment.
    pub fn packet(&self) -> (r: &'a [u8])
        ensures
            r@ == self@,
            r@.len() >= 20,
    {
        proof {
            use_type_invariant(self);
        }
        self.buf
    }

    /// What follows the fixed part: options, if any, and data.
    pub fn payload(&self) -> (r: &'a [u8])
        ensures
            r@ == tcp_payload(self@),
            r@.len() == self@.len() - 20,
    {
        proof {
            use_type_invariant(self);
        }
        let n: usize = self.buf.len();
        &self.buf[20..n]
    }
}

/// A view of a TCP segment through which its fields are written.
pub struct TcpPacketMut<'a> {
    /// The bytes that the view reads and writes.
    pub buf: &'a mut [u8],
}

impl<'a> View for TcpPacketMut<'a> {
    type V = Seq<u8>;

    open spec fn view(&self) -> Seq<u8> {
        self.buf@
    }
}

impl<'a> TcpPacketMut<'a> {
    /// Whether the buffer is long enough to hold the fixed part.
    pub open spec fn wf(&self) -> bool {
        self.buf@.len() >= 20
    }

    /// A view of `packet`, if it is long enough to hold the fixed part.
    pub fn new(packet: &'a mut [u8]) -> (r: Option<Self>)
        ensures
            r is Some <==> old(packet)@.len() >= 20,
            r matches Some(p) ==> p@ == old(packet)@ && p.wf() && final(p.buf)@ == final(packet)@,
            r is None ==> final(packet)@ == old(packet)@,
    {
        if packet.len() >= TCP_HEADER_SIZE {
            Some(TcpPacketMut { buf: packet })
        } else {
            None
        }
    }

    pub fn set_source(&mut self, val: u16)
        requires
            old(self).wf(),
        ensures
            final(self)@ == put_be16(old(self)@, 0, val),
            final(self).wf(),
            final(final(self).buf)@ == final(old(self).buf)@,
    {
        write_u16(self.buf, 0, val);
    }

    pub fn set_destination(&mut self, val: u16)
        requires
            old(self).wf(),
        ensures
            final(self)@ == put_be16(old(self)@, 2, val),
            final(self).wf(),
            final(final(self).buf)@ == final(old(self).buf)@,
    {
        write_u16(self.buf, 2, val);
    }

    pub fn set_sequence(&mut self, val: u32)
        requires
            old(self).wf(),
        ensures
            final(self)@ == put_be32(old(self)@, 4, val),
            final(self).wf(),
            final(final(self).buf)@ == final(old(self).buf)@,
    {
        write_u32(self.buf, 4, val);
    }

    pub fn set_acknowledgement(&mut self, val: u32)
        requires
            old(self).wf(),
        ensures
            final(self)@ == put_be32(old(self)@, 8, val),
            final(self).wf(),
            final(final(self).buf)@ == final(old(self).buf)@,
    {
        write_u32(self.buf, 8, val);
    }

    /// Writes the low four bits of `val` as the data offset.
    pub fn set_data_offset(&mut self, val: u8)
        requires
            old(self).wf(),
        ensures
            final(self)@ == old(self)@.update(12, with_data_offset(old(self)@[12], val)),
            final(self).wf(),
            final(final(self).buf)@ == final(old(self).buf)@,
    {
        let byte: u8 = read_u8(self.buf, 12);
        write_u8(self.buf, 12, (val % 16) * 16 + byte % 16);
    }

    pub fn set_flags(&mut self, val: u8)
        requires
            old(self).wf(),
        ensures
            final(self)@ == old(self)@.update(13, val),
            final(self).wf(),
            final(final(self).buf)@ == final(old(self).buf)@,
    {
        write_u8(self.buf, 13, val);
    }

    pub fn set_window_size(&mut self, val: u16)
        requires
            old(self).wf(),
        ensures
            final(self)@ == put_be16(old(self)@, 14, val),
            final(self).wf(),
            final(final(self).buf)@ == final(old(self).buf)@,
    {
        write_u16(self.buf, 14, val);
    }

    pub fn set_checksum(&mut self, val: u16)
        requires
            old(self).wf(),
        ensures
            final(self)@ == put_be16(old(self)@, 16, val),
            final(self).wf(),
            final(final(self).buf)@ == final(old(self).buf)@,
    {
        write_u16(self.buf, 16, val);
    }

    pub fn set_urgent_pointer(&mut self, val: u16)
        requires
            old(self).wf(),
        ensures
            final(self)@ == put_be16(old(self)@, 18, val),
            final(self).wf(),
            final(final(self).buf)@ == final(old(self).buf)@,
    {
        write_u16(self.buf, 18, val);
    }

    /// Copies `vals` to the start of what follows the fixed part.
    pub fn set_payload(&mut self, vals: &[u8])
        requires
            old(self).wf(),
            20 + vals@.len() <= old(self)@.len(),
        ensures
            final(self)@ == put_bytes(old(self)@, 20, vals@),
            final(self).wf(),
            final(final(self).buf)@ == final(old(self).buf)@,
    {
        write_bytes(self.buf, 20, vals);
    }

    /// The whole segment, as it stands.
    pub fn packet(&self) -> (r: &[u8])
        ensures
            r@ == self@,
    {
        &*self.buf
    }
}

} // verus!
