//! The ICMPv6 destination unreachable message: type, code and checksum,
//! four unused bytes, and as much of the undelivered packet as fits.

use crate::packet::bytes::{
    put_be16, put_bytes, read_u16, read_u8, write_bytes, write_u16, write_u8,
};
use crate::packet::icmpv6::{
    message_checksum, message_code, message_payload, message_type, message_type_id, Icmpv6Code,
    Icmpv6Type, MESSAGE_HEADER_SIZE,
};
use vstd::prelude::*;

verus! {

/// A read-only view of a destination unreachable message.
pub struct DestinationUnreachablePacket<'a> {
    buf: &'a [u8],
}

impl<'a> View for DestinationUnreachablePacket<'a> {
    type V = Seq<u8>;

    closed spec fn view(&self) -> Seq<u8> {
        self.buf@
    }
}

impl<'a> DestinationUnreachablePacket<'a> {
    #[verifier::type_invariant]
    spec fn long_enough(self) -> bool {
        self.buf@.len() >= 8
    }

    /// The least number of bytes that a destination unreachable message has.
    pub fn minimum_packet_size() -> (r: usize)
        ensures
            r == 8,
    {
        MESSAGE_HEADER_SIZE
    }

    /// A view of `packet`, if it is long enough to hold the header.
    pub fn new_view(packet: &'a [u8]) -> (r: Option<Self>)
        ensures
            r is Some <==> packet@.len() >= 8,
            r matches Some(p) ==> p@ == packet@,
    {
        if packet.len() >= MESSAGE_HEADER_SIZE {
            Some(DestinationUnreachablePacket { buf: packet })
        } else {
            None
        }
    }

    pub fn get_icmp_type(&self) -> (r: Icmpv6Type)
        ensures
            r == message_type(self@),
    {
        proof {
            use_type_invariant(self);
        }
        Icmpv6Type::from_id(read_u8(self.buf, 0))
    }

    pub fn get_icmp_code(&self) -> (r: Icmpv6Code)
        ensures
            r == message_code(self@),
    {
        proof {
            use_type_invariant(self);
        }
        Icmpv6Code(read_u8(self.buf, 1))
    }

    pub fn get_checksum(&self) -> (r: u16)
        ensures
            r == message_checksum(self@),
    {
        proof {
            use_type_invariant(self);
        }
        read_u16(self.buf, 2)
    }

    /// The whole message.
    pub fn packet(&self) -> (r: &'a [u8])
        ensures
            r@ == self@,
            r@.len() >= 8,
    {
        proof {
            use_type_invariant(self);
        }
        self.buf
    }

    /// What follows the header: the start of the packet that the message is about.
    pub fn payload(&self) -> (r: &'a [u8])
        ensures
            r@ == message_payload(self@),
            r@.len() == self@.len() - 8,
    {
        proof {
            use_type_invariant(self);
        }
        let n: usize = self.buf.len();
        &self.buf[8..n]
    }
}

/// A view of a destination unreachable message through which its fields are written.
pub struct DestinationUnreachablePacketMut<'a> {
    /// The bytes that the view reads and writes.
    pub buf: &'a mut [u8],
}

impl<'a> View for DestinationUnreachablePacketMut<'a> {
    type V = Seq<u8>;

    open spec fn view(&self) -> Seq<u8> {
        self.buf@
    }
}

impl<'a> DestinationUnreachablePacketMut<'a> {
    /// Whether the buffer is long enough to hold the header.
    pub open spec fn wf(&self) -> bool {
        self.buf@.len() >= 8
    }

    /// A view of `packet`, if it is long enough to hold the header.
    pub fn new(packet: &'a mut [u8]) -> (r: Option<Self>)
        ensures
            r is Some <==> old(packet)@.len() >= 8,
            r matches Some(p) ==> p@ == old(packet)@ && p.wf() && final(p.buf)@ == final(packet)@,
            r is None ==> final(packet)@ == old(packet)@,
    {
        if packet.len() >= MESSAGE_HEADER_SIZE {
            Some(DestinationUnreachablePacketMut { buf: packet })
        } else {
            None
        }
    }

    pub fn set_icmp_type(&mut self, val: Icmpv6Type)
        requires
            old(self).wf(),
        ensures
            final(self)@ == old(self)@.update(0, message_type_id(val)),
            final(self).wf(),
            final(final(self).buf)@ == final(old(self).buf)@,
    {
        write_u8(self.buf, 0, val.id());
    }

    pub fn set_icmp_code(&mut self, val: Icmpv6Code)
        requires
            old(self).wf(),
        ensures
            final(self)@ == old(self)@.update(1, val.0),
            final(self).wf(),
            final(final(self).buf)@ == final(old(self).buf)@,
    {
        write_u8(self.buf, 1, val.0);
    }

    pub fn set_checksum(&mut self, val: u16)
        requires
            old(self).wf(),
        ensures
            final(self)@ == put_be16(old(self)@, 2, val),
            final(self).wf(),
            final(final(self).buf)@ == final(old(self).buf)@,
    {
        write_u16(self.buf, 2, val);
    }

    /// Copies `vals` to the start of the payload.
    pub fn set_payload(&mut self, vals: &[u8])
        requires
            old(self).wf(),
            8 + vals@.len() <= old(self)@.len(),
        ensures
            final(self)@ == put_bytes(old(self)@, 8, vals@),
            final(self).wf(),
            final(final(self).buf)@ == final(old(self).buf)@,
    {
        write_bytes(self.buf, 8, vals);
    }

    /// The whole message, as it stands.
    pub fn packet(&self) -> (r: &[u8])
        ensures
            r@ == self@,
    {
        &*self.buf
    }
}

} // verus!
