//! The part that all ICMPv6 messages share: type, code and checksum, and
//! the four bytes after them whose meaning depends on the type.

use crate::packet::bytes::{
    be16_at, lemma_be16_of_parts, put_be16, put_bytes, read_u16, read_u8, tail, write_bytes,
    write_u16, write_u8,
};
use vstd::prelude::*;

verus! {

/// The size of the fixed part of an ICMPv6 message.
pub const MESSAGE_HEADER_SIZE: usize = 8;

/// The type of an ICMPv6 message, as far as the engine tells types apart.
#[derive(Clone, Copy, Debug, PartialEq, Eq)]
pub enum Icmpv6Type {
    EchoRequest,
    EchoReply,
    DestinationUnreachable,
    TimeExceeded,
    Other(u8),
}

/// The code of an ICMPv6 message.
#[derive(Clone, Copy, Debug, PartialEq, Eq)]
pub struct Icmpv6Code(pub u8);

/// The type that the type byte `id` stands for.
pub open spec fn message_type_of(id: u8) -> Icmpv6Type {
    if id == 128 {
        Icmpv6Type::EchoRequest
    } else if id == 129 {
        Icmpv6Type::EchoReply
    } else if id == 1 {
        Icmpv6Type::DestinationUnreachable
    } else if id == 3 {
        Icmpv6Type::TimeExceeded
    } else {
        Icmpv6Type::Other(id)
    }
}

/// The type byte that stands for the type `ty`.
pub open spec fn message_type_id(ty: Icmpv6Type) -> u8 {
    match ty {
        Icmpv6Type::EchoRequest => 128,
        Icmpv6Type::EchoReply => 129,
        Icmpv6Type::DestinationUnreachable => 1,
        Icmpv6Type::TimeExceeded => 3,
        Icmpv6Type::Other(id) => id,
    }
}

/// The type of the message `s`.
pub open spec fn message_type(s: Seq<u8>) -> Icmpv6Type {
    message_type_of(s[0])
}

/// The code of the message `s`.
pub open spec fn message_code(s: Seq<u8>) -> Icmpv6Code {
    Icmpv6Code(s[1])
}

/// The checksum field of the message `s`.
pub open spec fn message_checksum(s: Seq<u8>) -> u16 {
    be16_at(s, 2)
}

/// What follows the fixed part in the message `s`.
pub open spec fn message_payload(s: Seq<u8>) -> Seq<u8> {
    tail(s, 8)
}

/// Whether `ty` is the type that its own type byte is read as: every type
/// is, but `Other` with the byte of one of the four named types.
pub open spec fn is_canonical(ty: Icmpv6Type) -> bool {
    message_type_of(message_type_id(ty)) == ty
}

/// `s` with type, code and checksum written.
pub open spec fn message_header_written(
    s: Seq<u8>,
    ty: Icmpv6Type,
    code: Icmpv6Code,
    checksum: u16,
) -> Seq<u8> {
    put_be16(s.update(0, message_type_id(ty)).update(1, code.0), 2, checksum)
}

/// Fields that are written are the fields that are read, and what follows
/// them is as it was.
pub proof fn lemma_message_round_trip(
    s: Seq<u8>,
    ty: Icmpv6Type,
    code: Icmpv6Code,
    checksum: u16,
)
    requires
        s.len() >= 8,
        is_canonical(ty),
    ensures
        ({
            let t = message_header_written(s, ty, code, checksum);
            &&& t.len() == s.len()
            &&& message_type(t) == ty
            &&& message_code(t) == code
            &&& message_checksum(t) == checksum
            &&& message_payload(t) == message_payload(s)
            &&& forall|i: int| 4 <= i < s.len() ==> t[i] == s[i]
        }),
{
    lemma_be16_of_parts(checksum);
    let t = message_header_written(s, ty, code, checksum);
    assert(message_payload(t) =~= message_payload(s));
}

/// Every type byte is read as a type that is written as the same byte.
pub proof fn lemma_type_id_of_type(id: u8)
    ensures
        message_type_id(message_type_of(id)) == id,
{
}

impl Icmpv6Type {
    /// The type that the type byte `id` stands for.
    pub fn from_id(id: u8) -> (r: Self)
        ensures
            r == message_type_of(id),
    {
        if id == 128 {
            Icmpv6Type::EchoRequest
        } else if id == 129 {
            Icmpv6Type::EchoReply
        } else if id == 1 {
            Icmpv6Type::DestinationUnreachable
        } else if id == 3 {
            Icmpv6Type::TimeExceeded
        } else {
            Icmpv6Type::Other(id)
        }
    }

    /// The type byte that stands for this type.
    pub fn id(&self) -> (r: u8)
        ensures
            r == message_type_id(*self),
    {
        match self {
            Icmpv6Type::EchoRequest => 128,
            Icmpv6Type::EchoReply => 129,
            Icmpv6Type::DestinationUnreachable => 1,
            Icmpv6Type::TimeExceeded => 3,
            Icmpv6Type::Other(id) => *id,
        }
    }
}

/// A read-only view of an ICMPv6 message of any type.
pub struct IcmpPacket<'a> {
    buf: &'a [u8],
}

impl<'a> View for IcmpPacket<'a> {
    type V = Seq<u8>;

    closed spec fn view(&self) -> Seq<u8> {
        self.buf@
    }
}

impl<'a> IcmpPacket<'a> {
    #[verifier::type_invariant]
    spec fn long_enough(self) -> bool {
        self.buf@.len() >= 8
    }

    /// The least number of bytes that an ICMPv6 message has.
    pub fn minimum_packet_size() -> (r: usize)
        ensures
            r == 8,
    {
        MESSAGE_HEADER_SIZE
    }

    /// A view of `packet`, if it is long enough to hold the fixed part.
    pub fn new_view(packet: &'a [u8]) -> (r: Option<Self>)
        ensures
            r is Some <==> packet@.len() >= 8,
            r matches Some(p) ==> p@ == packet@,
    {
        if packet.len() >= MESSAGE_HEADER_SIZE {
            Some(IcmpPacket { buf: packet })
        } else {
            None
        }
    }

    pub fn get_icmp_type(&self) -> (r: Icmpv6Type)
        ensures
            r == message_type(self@),
    {
        proof {
            use_type_invariant(self);
        }
        Icmpv6Type::from_id(read_u8(self.buf, 0))
    }

    pub fn get_icmp_code(&self) -> (r: Icmpv6Code)
        ensures
            r == message_code(self@),
    {
        proof {
            use_type_invariant(self);
        }
        Icmpv6Code(read_u8(self.buf, 1))
    }

    pub fn get_checksum(&self) -> (r: u16)
        ensures
            r == message_checksum(self@),
    {
        proof {
            use_type_invariant(self);
        }
        read_u16(self.buf, 2)
    }

    /// The whole message.
    pub fn packet(&self) -> (r: &'a [u8])
        ensures
            r@ == self@,
            r@.len() >= 8,
    {
        proof {
            use_type_invariant(self);
        }
        self.buf
    }

    /// What follows the fixed part.
    pub fn payload(&self) -> (r: &'a [u8])
        ensures
            r@ == message_payload(self@),
            r@.len() == self@.len() - 8,
    {
        proof {
            use_type_invariant(self);
        }
        let n: usize = self.buf.len();
        &self.buf[8..n]
    }
}

/// A view of an ICMPv6 message through which its fields are written.
pub struct IcmpPacketMut<'a> {
    /// The bytes that the view reads and writes.
    pub buf: &'a mut [u8],
}

impl<'a> View for IcmpPacketMut<'a> {
    type V = Seq<u8>;

    open spec fn view(&self) -> Seq<u8> {
        self.buf@
    }
}

impl<'a> IcmpPacketMut<'a> {
    /// Whether the buffer is long enough to hold the fixed part.
    pub open spec fn wf(&self) -> bool {
        self.buf@.len() >= 8
    }

    /// A view of `packet`, if it is long enough to hold the fixed part.
    pub fn new(packet: &'a mut [u8]) -> (r: Option<Self>)
        ensures
            r is Some <==> old(packet)@.len() >= 8,
            r matches Some(p) ==> p@ == old(packet)@ && p.wf() && final(p.buf)@ == final(packet)@,
            r is None ==> final(packet)@ == old(packet)@,
    {
        if packet.len() >= MESSAGE_HEADER_SIZE {
            Some(IcmpPacketMut { buf: packet })
        } else {
            None
        }
    }

    pub fn set_icmp_type(&mut self, val: Icmpv6Type)
        requires
            old(self).wf(),
        ensures
            final(self)@ == old(self)@.update(0, message_type_id(val)),
            final(self).wf(),
            final(final(self).buf)@ == final(old(self).buf)@,
    {
        write_u8(self.buf, 0, val.id());
    }

    pub fn set_icmp_code(&mut self, val: Icmpv6Code)
        requires
            old(self).wf(),
        ensures
            final(self)@ == old(self)@.update(1, val.0),
            final(self).wf(),
            final(final(self).buf)@ == final(old(self).buf)@,
    {
        write_u8(self.buf, 1, val.0);
    }

    pub fn set_checksum(&mut self, val: u16)
        requires
            old(self).wf(),
        ensures
            final(self)@ == put_be16(old(self)@, 2, val),
            final(self).wf(),
            final(final(self).buf)@ == final(old(self).buf)@,
    {
        write_u16(self.buf, 2, val);
    }

    /// Copies `vals` to the start of what follows the fixed part.
    pub fn set_payload(&mut self, vals: &[u8])
        requires
            old(self).wf(),
            8 + vals@.len() <= old(self)@.len(),
        ensures
            final(self)@ == put_bytes(old(self)@, 8, vals@),
            final(self).wf(),
            final(final(self).buf)@ == final(old(self).buf)@,
    {
        write_bytes(self.buf, 8, vals);
    }

    /// The whole message, as it stands.
    pub fn packet(&self) -> (r: &[u8])
        ensures
            r@ == self@,
    {
        &*self.buf
    }
}

} // verus!
