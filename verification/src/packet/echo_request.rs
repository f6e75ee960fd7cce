//! The ICMPv6 echo request: type, code and checksum, then the identifier
//! and the sequence number, sixteen bits each, and the payload.

use crate::packet::bytes::{
    be16_at, lemma_be16_of_parts, put_be16, put_bytes, read_u16, read_u8, write_bytes, write_u16, write_u8,
};
use crate::packet::icmpv6::{
    is_canonical, lemma_message_round_trip, message_header_written, message_checksum, message_code, message_payload, message_type, message_type_id, Icmpv6Code,
    Icmpv6Type, MESSAGE_HEADER_SIZE,
};
use vstd::prelude::*;

verus! {

/// The identifier of the echo message `s`.
pub open spec fn echo_identifier(s: Seq<u8>) -> u16 {
    be16_at(s, 4)
}

/// The sequence number of the echo message `s`.
pub open spec fn echo_sequence(s: Seq<u8>) -> u16 {
    be16_at(s, 6)
}

/// `s` with the five fields of an echo message written.
pub open spec fn echo_header_written(
    s: Seq<u8>,
    ty: Icmpv6Type,
    code: Icmpv6Code,
    checksum: u16,
    identifier: u16,
    sequence: u16,
) -> Seq<u8> {
    put_be16(put_be16(message_header_written(s, ty, code, checksum), 4, identifier), 6, sequence)
}

/// Fields of an echo message that are written are the fields that are
/// read, and the payload is as it was.
pub proof fn lemma_echo_round_trip(
    s: Seq<u8>,
    ty: Icmpv6Type,
    code: Icmpv6Code,
    checksum: u16,
    identifier: u16,
    sequence: u16,
)
    requires
        s.len() >= 8,
        is_canonical(ty),
    ensures
        ({
            let t = echo_header_written(s, ty, code, checksum, identifier, sequence);
            &&& t.len() == s.len()
            &&& message_type(t) == ty
            &&& message_code(t) == code
            &&& message_checksum(t) == checksum
            &&& echo_identifier(t) == identifier
            &&& echo_sequence(t) == sequence
            &&& message_payload(t) == message_payload(s)
        }),
{
    lemma_message_round_trip(s, ty, code, checksum);
    lemma_be16_of_parts(identifier);
    lemma_be16_of_parts(sequence);
    let t = echo_header_written(s, ty, code, checksum, identifier, sequence);
    assert(message_payload(t) =~= message_payload(s));
}

/// A read-only view of an echo request.
pub struct EchoRequestPacket<'a> {
    buf: &'a [u8],
}

impl<'a> View for EchoRequestPacket<'a> {
    type V = Seq<u8>;

    closed spec fn view(&self) -> Seq<u8> {
        self.buf@
    }
}

impl<'a> EchoRequestPacket<'a> {
    #[verifier::type_invariant]
    spec fn long_enough(self) -> bool {
        self.buf@.len() >= 8
    }

    /// The least number of bytes that an echo request has.
    pub fn minimum_packet_size() -> (r: usize)
        ensures
            r == 8,
    {
        MESSAGE_HEADER_SIZE
    }

    /// A view of `packet`, if it is long enough to hold the header.
    pub fn new_view(packet: &'a [u8]) -> (r: Option<Self>)
        ensures
            r is Some <==> packet@.len() >= 8,
            r matches Some(p) ==> p@ == packet@,
    {
        if packet.len() >= MESSAGE_HEADER_SIZE {
            Some(EchoRequestPacket { buf: packet })
        } else {
            None
        }
    }

    pub fn get_icmp_type(&self) -> (r: Icmpv6Type)
        ensures
            r == message_type(self@),
    {
        proof {
            use_type_invariant(self);
        }
        Icmpv6Type::from_id(read_u8(self.buf, 0))
    }

    pub fn get_icmp_code(&self) -> (r: Icmpv6Code)
        ensures
            r == message_code(self@),
    {
        proof {
            use_type_invariant(self);
        }
        Icmpv6Code(read_u8(self.buf, 1))
    }

    pub fn get_checksum(&self) -> (r: u16)
        ensures
            r == message_checksum(self@),
    {
        proof {
            use_type_invariant(self);
        }
        read_u16(self.buf, 2)
    }

    pub fn get_identifier(&self) -> (r: u16)
        ensures
            r == echo_identifier(self@),
    {
        proof {
            use_type_invariant(self);
        }
        read_u16(self.buf, 4)
    }

    pub fn get_sequence(&self) -> (r: u16)
        ensures
            r == echo_sequence(self@),
    {
        proof {
            use_type_invariant(self);
        }
        read_u16(self.buf, 6)
    }

    /// The whole message.
    pub fn packet(&self) -> (r: &'a [u8])
        ensures
            r@ == self@,
            r@.len() >= 8,
    {
        proof {
            use_type_invariant(self);
        }
        self.buf
    }

    /// What follows the header.
    pub fn payload(&self) -> (r: &'a [u8])
        ensures
            r@ == message_payload(self@),
            r@.len() == self@.len() - 8,
    {
        proof {
            use_type_invariant(self);
        }
        let n: usize = self.buf.len();
        &self.buf[8..n]
    }
}

/// A view of an echo request through which its fields are written.
pub struct EchoRequestPacketMut<'a> {
    /// The bytes that the view reads and writes.
    pub buf: &'a mut [u8],
}

impl<'a> View for EchoRequestPacketMut<'a> {
    type V = Seq<u8>;

    open spec fn view(&self) -> Seq<u8> {
        self.buf@
    }
}

impl<'a> EchoRequestPacketMut<'a> {
    /// Whether the buffer is long enough to hold the header.
    pub open spec fn wf(&self) -> bool {
        self.buf@.len() >= 8
    }

    /// A view of `packet`, if it is long enough to hold the header.
    pub fn new(packet: &'a mut [u8]) -> (r: Option<Self>)
        ensures
            r is Some <==> old(packet)@.len() >= 8,
            r matches Some(p) ==> p@ == old(packet)@ && p.wf() && final(p.buf)@ == final(packet)@,
            r is None ==> final(packet)@ == old(packet)@,
    {
        if packet.len() >= MESSAGE_HEADER_SIZE {
            Some(EchoRequestPacketMut { buf: packet })
        } else {
            None
        }
    }

    pub fn set_icmp_type(&mut self, val: Icmpv6Type)
        requires
            old(self).wf(),
        ensures
            final(self)@ == old(self)@.update(0, message_type_id(val)),
            final(self).wf(),
            final(final(self).buf)@ == final(old(self).buf)@,
    {
        write_u8(self.buf, 0, val.id());
    }

    pub fn set_icmp_code(&mut self, val: Icmpv6Code)
        requires
            old(self).wf(),
        ensures
            final(self)@ == old(self)@.update(1, val.0),
            final(self).wf(),
            final(final(self).buf)@ == final(old(self).buf)@,
    {
        write_u8(self.buf, 1, val.0);
    }

    pub fn set_checksum(&mut self, val: u16)
        requires
            old(self).wf(),
        ensures
            final(self)@ == put_be16(old(self)@, 2, val),
            final(self).wf(),
            final(final(self).buf)@ == final(old(self).buf)@,
    {
        write_u16(self.buf, 2, val);
    }

    pub fn set_identifier(&mut self, val: u16)
        requires
            old(self).wf(),
        ensures
            final(self)@ == put_be16(old(self)@, 4, val),
            final(self).wf(),
            final(final(self).buf)@ == final(old(self).buf)@,
    {
        write_u16(self.buf, 4, val);
    }

    pub fn set_sequence(&mut self, val: u16)
        requires
            old(self).wf(),
        ensures
            final(self)@ == put_be16(old(self)@, 6, val),
            final(self).wf(),
            final(final(self).buf)@ == final(old(self).buf)@,
    {
        write_u16(self.buf, 6, val);
    }

    /// Copies `vals` to the start of the payload.
    pub fn set_payload(&mut self, vals: &[u8])
        requires
            old(self).wf(),
            8 + vals@.len() <= old(self)@.len(),
        ensures
            final(self)@ == put_bytes(old(self)@, 8, vals@),
            final(self).wf(),
            final(final(self).buf)@ == final(old(self).buf)@,
    {
        write_bytes(self.buf, 8, vals);
    }

    /// The whole message, as it stands.
    pub fn packet(&self) -> (r: &[u8])
        ensures
            r@ == self@,
    {
        &*self.buf
    }
}

} // verus!
