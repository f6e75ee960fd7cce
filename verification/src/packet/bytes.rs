//! Big-endian field access on byte sequences.
//!
//! Every header codec reads and writes its fields through the functions
//! of this module, so the wire order is stated once.

use vstd::prelude::*;

verus! {

/// The 16-bit value whose network-order encoding is `hi`, `lo`.
pub open spec fn be16(hi: u8, lo: u8) -> u16 {
    (hi as int * 256 + lo as int) as u16
}

/// The high byte of `v` in network order.
pub open spec fn hi8(v: u16) -> u8 {
    (v as int / 256) as u8
}

/// The low byte of `v` in network order.
pub open spec fn lo8(v: u16) -> u8 {
    (v as int % 256) as u8
}

/// The 16-bit big-endian field that starts at `off`.
pub open spec fn be16_at(s: Seq<u8>, off: int) -> u16 {
    be16(s[off], s[off + 1])
}

/// `s` with the 16-bit big-endian field at `off` replaced by `v`.
pub open spec fn put_be16(s: Seq<u8>, off: int, v: u16) -> Seq<u8> {
    s.update(off, hi8(v)).update(off + 1, lo8(v))
}

/// The 32-bit big-endian field that starts at `off`.
pub open spec fn be32_at(s: Seq<u8>, off: int) -> u32 {
    (be16_at(s, off) as int * 65536 + be16_at(s, off + 2) as int) as u32
}

/// `s` with the 32-bit big-endian field at `off` replaced by `v`.
pub open spec fn put_be32(s: Seq<u8>, off: int, v: u32) -> Seq<u8> {
    put_be16(put_be16(s, off, (v as int / 65536) as u16), off + 2, (v as int % 65536) as u16)
}

/// `s` with the bytes from `off` on replaced by `data`.
pub open spec fn put_bytes(s: Seq<u8>, off: int, data: Seq<u8>) -> Seq<u8> {
    Seq::new(
        s.len(),
        |i: int|
            if off <= i < off + data.len() {
                data[i - off]
            } else {
                s[i]
            },
    )
}

/// The bytes of `s` from `off` to its end.
pub open spec fn tail(s: Seq<u8>, off: int) -> Seq<u8> {
    s.subrange(off, s.len() as int)
}

/// Splitting a value into its two bytes and joining them again is the identity.
pub proof fn lemma_be16_of_parts(v: u16)
    ensures
        be16(hi8(v), lo8(v)) == v,
{
}

/// Joining two bytes and splitting the result gives the bytes back.
pub proof fn lemma_parts_of_be16(hi: u8, lo: u8)
    ensures
        hi8(be16(hi, lo)) == hi,
        lo8(be16(hi, lo)) == lo,
{
}

/// A field that was written is the field that is read.
pub proof fn lemma_put_then_get_be16(s: Seq<u8>, off: int, v: u16)
    requires
        0 <= off,
        off + 2 <= s.len(),
    ensures
        be16_at(put_be16(s, off, v), off) == v,
        put_be16(s, off, v).len() == s.len(),
{
    lemma_be16_of_parts(v);
}

/// A 16-bit field that was written leaves every other aligned or
/// unaligned 16-bit field that does not overlap it as it was.
pub proof fn lemma_put_be16_other_field(s: Seq<u8>, off: int, v: u16, other: int)
    requires
        0 <= off,
        off + 2 <= s.len(),
        0 <= other,
        other + 2 <= s.len(),
        other + 2 <= off || off + 2 <= other,
    ensures
        be16_at(put_be16(s, off, v), other) == be16_at(s, other),
{
}

/// A 32-bit field that was written is the field that is read.
pub proof fn lemma_put_then_get_be32(s: Seq<u8>, off: int, v: u32)
    requires
        0 <= off,
        off + 4 <= s.len(),
    ensures
        be32_at(put_be32(s, off, v), off) == v,
        put_be32(s, off, v).len() == s.len(),
{
    lemma_be16_of_parts((v as int / 65536) as u16);
    lemma_be16_of_parts((v as int % 65536) as u16);
}

/// Reads the byte at `off`.
pub fn read_u8(buf: &[u8], off: usize) -> (r: u8)
    requires
        off < buf@.len(),
    ensures
        r == buf@[off as int],
{
    buf[off]
}

/// Writes `v` as the byte at `off`.
pub fn write_u8(buf: &mut [u8], off: usize, v: u8)
    requires
        off < old(buf)@.len(),
    ensures
        final(buf)@ == old(buf)@.update(off as int, v),
        final(buf)@.len() == old(buf)@.len(),
{
    buf[off] = v;
}

/// Reads the 16-bit big-endian field at `off`.
pub fn read_u16(buf: &[u8], off: usize) -> (r: u16)
    requires
        off + 2 <= buf@.len(),
    ensures
        r == be16_at(buf@, off as int),
{
    let hi: u16 = buf[off] as u16;
    let lo: u16 = buf[off + 1] as u16;
    hi * 256 + lo
}

/// Writes `v` as the 16-bit big-endian field at `off`.
pub fn write_u16(buf: &mut [u8], off: usize, v: u16)
    requires
        off + 2 <= old(buf)@.len(),
    ensures
        final(buf)@ == put_be16(old(buf)@, off as int, v),
        final(buf)@.len() == old(buf)@.len(),
{
    buf[off] = (v / 256) as u8;
    buf[off + 1] = (v % 256) as u8;
}

/// Reads the 32-bit big-endian field at `off`.
pub fn read_u32(buf: &[u8], off: usize) -> (r: u32)
    requires
        off + 4 <= buf@.len(),
    ensures
        r == be32_at(buf@, off as int),
{
    let len: usize = buf.len();
    assert(off + 4 <= len);
    let hi: u32 = read_u16(buf, off) as u32;
    let lo: u32 = read_u16(buf, off + 2) as u32;
    hi * 65536 + lo
}

/// Writes `v` as the 32-bit big-endian field at `off`.
pub fn write_u32(buf: &mut [u8], off: usize, v: u32)
    requires
        off + 4 <= old(buf)@.len(),
    ensures
        final(buf)@ == put_be32(old(buf)@, off as int, v),
        final(buf)@.len() == old(buf)@.len(),
{
    let len: usize = buf.len();
    assert(off + 4 <= len);
    write_u16(buf, off, (v / 65536) as u16);
    write_u16(buf, off + 2, (v % 65536) as u16);
}

/// Copies `data` into `buf` from `off` on.
pub fn write_bytes(buf: &mut [u8], off: usize, data: &[u8])
    requires
        off + data@.len() <= old(buf)@.len(),
    ensures
        final(buf)@ == put_bytes(old(buf)@, off as int, data@),
        final(buf)@.len() == old(buf)@.len(),
{
    let n: usize = data.len();
    let len: usize = buf.len();
    let mut i: usize = 0;
    while i < n
        invariant
            i <= n,
            n == data@.len(),
            off + n <= len,
            len == buf@.len(),
            buf@.len() == old(buf)@.len(),
            forall|j: int| 0 <= j < buf@.len() ==> buf@[j] == (if off <= j < off + i {
                data@[j - off]
            } else {
                old(buf)@[j]
            }),
        decreases n - i,
    {
        buf[off + i] = data[i];
        i = i + 1;
    }
    assert(buf@ =~= put_bytes(old(buf)@, off as int, data@));
}

} // verus!
