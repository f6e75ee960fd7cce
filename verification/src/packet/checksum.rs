//! The Internet checksum over an IPv6 pseudo-header and a transport segment.
//!
//! The one's-complement sum of 16-bit words is their ordinary sum taken
//! modulo `0xFFFF`, where `0xFFFF` stands for every non-zero multiple; the
//! checksum is the complement of that sum. A segment is valid when the sum
//! over pseudo-header and segment, checksum field included, is `0xFFFF`.

use crate::packet::bytes::put_be16;
use crate::types::Ipv6Address;
use vstd::prelude::*;

verus! {

/// The next-header number of ICMPv6.
pub const NEXT_HEADER_ICMPV6: u8 = 58;

/// The next-header number of UDP.
pub const NEXT_HEADER_UDP: u8 = 17;

/// The byte at `i`, or zero past the end: a segment of odd length is padded.
pub open spec fn byte_or_zero(s: Seq<u8>, i: int) -> nat {
    if 0 <= i < s.len() {
        s[i] as nat
    } else {
        0
    }
}

/// The `k`-th big-endian 16-bit word of `s`.
pub open spec fn word_at(s: Seq<u8>, k: int) -> nat {
    byte_or_zero(s, 2 * k) * 256 + byte_or_zero(s, 2 * k + 1)
}

/// The sum of the first `n` words of `s`.
pub open spec fn word_sum_upto(s: Seq<u8>, n: nat) -> nat
    decreases n,
{
    if n == 0 {
        0
    } else {
        word_sum_upto(s, (n - 1) as nat) + word_at(s, n - 1)
    }
}

/// The number of 16-bit words that `s` fills, the last one perhaps by half.
pub open spec fn word_count(s: Seq<u8>) -> nat {
    ((s.len() + 1) / 2) as nat
}

/// The sum of all the words of `s`.
pub open spec fn word_sum(s: Seq<u8>) -> nat {
    word_sum_upto(s, word_count(s))
}

/// The one's-complement reduction of a sum to sixteen bits.
pub open spec fn fold16(sum: nat) -> nat {
    if sum == 0 {
        0
    } else {
        ((sum - 1) % 65535 + 1) as nat
    }
}

/// `s` with its `k`-th word set to zero, as far as the word lies in `s`.
pub open spec fn zero_word(s: Seq<u8>, k: int) -> Seq<u8> {
    Seq::new(
        s.len(),
        |i: int|
            if i == 2 * k || i == 2 * k + 1 {
                0u8
            } else {
                s[i]
            },
    )
}

/// The 40 bytes that stand before a segment when its checksum is taken:
/// both addresses, the segment's length as 32 bits, three zero bytes and
/// the next-header number.
pub open spec fn pseudo_header(src: Seq<u8>, dst: Seq<u8>, upper_len: nat, next_header: u8) -> Seq<
    u8,
> {
    src + dst + seq![
        (upper_len / 16777216 % 256) as u8,
        (upper_len / 65536 % 256) as u8,
        (upper_len / 256 % 256) as u8,
        (upper_len % 256) as u8,
        0u8,
        0u8,
        0u8,
        next_header,
    ]
}

/// The one's-complement sum over the pseudo-header and `segment`.
pub open spec fn pseudo_sum(segment: Seq<u8>, src: Seq<u8>, dst: Seq<u8>, next_header: u8) -> nat {
    fold16(word_sum(pseudo_header(src, dst, segment.len(), next_header) + segment))
}

/// The checksum of `segment`, taken with its `field`-th word as zero.
pub open spec fn ipv6_checksum_of(
    segment: Seq<u8>,
    src: Seq<u8>,
    dst: Seq<u8>,
    next_header: u8,
    field: int,
) -> u16 {
    (65535 - pseudo_sum(zero_word(segment, field), src, dst, next_header)) as u16
}

/// The checksum that a UDP segment carries: the computed one, with
/// `0xFFFF` in place of zero, which on the wire would mean "no checksum".
pub open spec fn udp_checksum_of(segment: Seq<u8>, src: Seq<u8>, dst: Seq<u8>) -> u16 {
    let c = ipv6_checksum_of(segment, src, dst, NEXT_HEADER_UDP, 3);
    if c == 0 {
        65535u16
    } else {
        c
    }
}

/// The checksum that an ICMPv6 message carries.
pub open spec fn echo_checksum_of(segment: Seq<u8>, src: Seq<u8>, dst: Seq<u8>) -> u16 {
    ipv6_checksum_of(segment, src, dst, NEXT_HEADER_ICMPV6, 1)
}

/// Whether a receiver that sums pseudo-header and segment finds `0xFFFF`,
/// so that the complement it computes is zero.
pub open spec fn checksum_verifies(segment: Seq<u8>, src: Seq<u8>, dst: Seq<u8>, next_header: u8) -> bool {
    pseudo_sum(segment, src, dst, next_header) == 65535
}

/// One step of the running sum: add a word, carry the overflow around.
pub open spec fn carry_add(acc: nat, word: nat) -> nat {
    if acc + word > 65535 {
        (acc + word - 65535) as nat
    } else {
        acc + word
    }
}

/// Adding a word to the folded sum and carrying around folds the larger sum.
pub proof fn lemma_fold16_step(sum: nat, word: nat)
    requires
        word <= 65535,
    ensures
        fold16(sum) <= 65535,
        fold16(sum + word) == carry_add(fold16(sum), word),
{
    if sum > 0 {
        let q = (sum - 1) / 65535;
        let r = (sum - 1) % 65535;
        assert(sum - 1 == 65535 * q + r);
        if r + word >= 65535 {
            assert(sum + word - 1 == 65535 * (q + 1) + (r + word - 65535));
            assert((sum + word - 1) % 65535 == r + word - 65535) by {
                vstd::arithmetic::div_mod::lemma_fundamental_div_mod_converse(
                    sum + word - 1,
                    65535,
                    q + 1,
                    r + word - 65535,
                );
            }
        } else {
            assert(sum + word - 1 == 65535 * q + (r + word));
            assert((sum + word - 1) % 65535 == r + word) by {
                vstd::arithmetic::div_mod::lemma_fundamental_div_mod_converse(
                    sum + word - 1,
                    65535,
                    q,
                    r + word,
                );
            }
        }
    }
}

/// A folded sum stands for the sum itself in every later addition.
pub proof fn lemma_fold16_absorb(sum: nat, more: nat)
    ensures
        fold16(fold16(sum) + more) == fold16(sum + more),
{
    if sum > 0 {
        let q = (sum - 1) / 65535;
        let r = (sum - 1) % 65535;
        assert(sum - 1 == 65535 * q + r);
        let q2 = (r + more) / 65535;
        let r2 = (r + more) % 65535;
        assert(r + more == 65535 * q2 + r2);
        assert(sum + more - 1 == 65535 * (q + q2) + r2);
        vstd::arithmetic::div_mod::lemma_fundamental_div_mod_converse(
            sum + more - 1,
            65535,
            q + q2,
            r2,
        );
    }
}

/// Sequences that agree on their first `n` words have the same sum of them.
pub proof fn lemma_word_sum_upto_same(s: Seq<u8>, t: Seq<u8>, n: nat)
    requires
        forall|j: int| 0 <= j < n ==> word_at(s, j) == word_at(t, j),
    ensures
        word_sum_upto(s, n) == word_sum_upto(t, n),
    decreases n,
{
    if n > 0 {
        lemma_word_sum_upto_same(s, t, (n - 1) as nat);
    }
}

/// Sequences that agree on all of their first `n` words but the `k`-th
/// differ in the sum by what they differ in that word.
pub proof fn lemma_word_sum_upto_one_differs(s: Seq<u8>, t: Seq<u8>, n: nat, k: int)
    requires
        0 <= k < n,
        forall|j: int| 0 <= j < n && j != k ==> word_at(s, j) == word_at(t, j),
    ensures
        word_sum_upto(s, n) - word_at(s, k) == word_sum_upto(t, n) - word_at(t, k),
    decreases n,
{
    if n - 1 == k {
        lemma_word_sum_upto_same(s, t, (n - 1) as nat);
    } else {
        lemma_word_sum_upto_one_differs(s, t, (n - 1) as nat, k);
    }
}

/// After a prefix of whole words, the words of what follows are summed as
/// they would be alone.
pub proof fn lemma_word_sum_upto_concat(a: Seq<u8>, b: Seq<u8>, m: nat)
    requires
        a.len() % 2 == 0,
    ensures
        word_sum_upto(a + b, a.len() / 2 + m) == word_sum(a) + word_sum_upto(b, m),
    decreases m,
{
    let h = a.len() / 2;
    if m == 0 {
        assert forall|j: int| 0 <= j < h implies word_at(a + b, j) == word_at(a, j) by {
            assert((a + b)[2 * j] == a[2 * j]);
            assert((a + b)[2 * j + 1] == a[2 * j + 1]);
        }
        lemma_word_sum_upto_same(a + b, a, h);
    } else {
        lemma_word_sum_upto_concat(a, b, (m - 1) as nat);
        let j = h + m - 1;
        assert(word_at(a + b, j) == word_at(b, m - 1)) by {
            if 2 * (m - 1) < b.len() {
                assert((a + b)[2 * j] == b[2 * (m - 1)]);
            }
            if 2 * (m - 1) + 1 < b.len() {
                assert((a + b)[2 * j + 1] == b[2 * (m - 1) + 1]);
            }
        }
    }
}

/// The sum over a sequence that a prefix of whole words stands before is
/// the sum of the two sums.
pub proof fn lemma_word_sum_concat(a: Seq<u8>, b: Seq<u8>)
    requires
        a.len() % 2 == 0,
    ensures
        word_sum(a + b) == word_sum(a) + word_sum(b),
{
    lemma_word_sum_upto_concat(a, b, word_count(b));
    assert(word_count(a + b) == a.len() / 2 + word_count(b));
}

/// Writing `v` into the `k`-th word adds `v` to the sum taken with that
/// word as zero.
pub proof fn lemma_word_sum_field(s: Seq<u8>, k: int, v: u16)
    requires
        0 <= k,
        2 * k + 2 <= s.len(),
    ensures
        word_sum(put_be16(s, 2 * k, v)) == word_sum(zero_word(s, k)) + v,
        zero_word(put_be16(s, 2 * k, v), k) == zero_word(s, k),
{
    let t = put_be16(s, 2 * k, v);
    let z = zero_word(s, k);
    let n = word_count(s);
    assert(word_at(t, k) == v);
    assert(word_at(z, k) == 0);
    assert forall|j: int| 0 <= j < n && j != k implies word_at(t, j) == word_at(z, j) by {
        if 2 * j < s.len() {
            assert(t[2 * j] == z[2 * j]);
        }
        if 2 * j + 1 < s.len() {
            assert(t[2 * j + 1] == z[2 * j + 1]);
        }
    }
    lemma_word_sum_upto_one_differs(t, z, n, k);
    assert(zero_word(t, k) =~= z);
}

/// A segment that carries its own checksum passes the receiver's test:
/// whatever the addresses, the next-header number and the other bytes are,
/// once the checksum taken over the segment is written into the field, the
/// one's-complement sum over pseudo-header and segment is `0xFFFF`.
pub proof fn lemma_checksum_verifies(
    segment: Seq<u8>,
    src: Seq<u8>,
    dst: Seq<u8>,
    next_header: u8,
    field: int,
)
    requires
        0 <= field,
        2 * field + 2 <= segment.len(),
        src.len() == 16,
        dst.len() == 16,
    ensures
        checksum_verifies(
            put_be16(segment, 2 * field, ipv6_checksum_of(segment, src, dst, next_header, field)),
            src,
            dst,
            next_header,
        ),
{
    let c = ipv6_checksum_of(segment, src, dst, next_header, field);
    lemma_stored_checksum_verifies(segment, src, dst, next_header, field, c);
}

/// The same for UDP, where `0xFFFF` is stored in place of a zero checksum.
pub proof fn lemma_udp_checksum_verifies(segment: Seq<u8>, src: Seq<u8>, dst: Seq<u8>)
    requires
        8 <= segment.len(),
        src.len() == 16,
        dst.len() == 16,
    ensures
        checksum_verifies(
            put_be16(segment, 6, udp_checksum_of(segment, src, dst)),
            src,
            dst,
            NEXT_HEADER_UDP,
        ),
        udp_checksum_of(segment, src, dst) != 0,
{
    let c = udp_checksum_of(segment, src, dst);
    lemma_stored_checksum_verifies(segment, src, dst, NEXT_HEADER_UDP, 3, c);
}

/// The checksum field may hold the computed checksum, or `0xFFFF` where
/// that is zero: the receiver's sum is `0xFFFF` either way.
proof fn lemma_stored_checksum_verifies(
    segment: Seq<u8>,
    src: Seq<u8>,
    dst: Seq<u8>,
    next_header: u8,
    field: int,
    stored: u16,
)
    requires
        0 <= field,
        2 * field + 2 <= segment.len(),
        src.len() == 16,
        dst.len() == 16,
        stored == ipv6_checksum_of(segment, src, dst, next_header, field) || (stored == 65535
            && ipv6_checksum_of(segment, src, dst, next_header, field) == 0),
    ensures
        checksum_verifies(put_be16(segment, 2 * field, stored), src, dst, next_header),
{
    let z = zero_word(segment, field);
    let t = put_be16(segment, 2 * field, stored);
    let ph = pseudo_header(src, dst, segment.len(), next_header);
    assert(ph.len() == 40);
    let base = word_sum(ph + z);
    lemma_word_sum_concat(ph, z);
    lemma_word_sum_concat(ph, t);
    lemma_word_sum_field(segment, field, stored);
    assert(word_sum(ph + t) == base + stored);
    lemma_fold16_step(base, 0);
    let f = fold16(base);
    if base > 0 {
        let q = (base - 1) / 65535;
        let r = (base - 1) % 65535;
        assert(base - 1 == 65535 * q + r);
        if stored == 65535 - f {
            assert(base + stored - 1 == 65535 * q + 65534);
            vstd::arithmetic::div_mod::lemma_fundamental_div_mod_converse(
                base + stored - 1,
                65535,
                q,
                65534,
            );
        } else {
            assert(f == 65535);
            assert(base + stored - 1 == 65535 * (q + 1) + 65534);
            vstd::arithmetic::div_mod::lemma_fundamental_div_mod_converse(
                base + stored - 1,
                65535,
                q + 1,
                65534,
            );
        }
    }
}

/// The folded sum `acc` with one more word added.
fn fold_add(acc: u32, word: u32) -> (r: u32)
    requires
        acc <= 65535,
        word <= 65535,
    ensures
        r == carry_add(acc as nat, word as nat),
        r <= 65535,
{
    let t: u32 = acc + word;
    if t > 65535 {
        t - 65535
    } else {
        t
    }
}

/// Adds the words of `data` to the folded sum `acc`. With `skip` the word
/// of that index counts as zero.
pub fn sum_words(acc: u32, data: &[u8], skip: Option<usize>) -> (r: u32)
    requires
        acc <= 65535,
    ensures
        r <= 65535,
        r == fold16(
            acc as nat + word_sum(
                match skip {
                    Some(k) => zero_word(data@, k as int),
                    None => data@,
                },
            ),
        ),
{
    let ghost z = match skip {
        Some(k) => zero_word(data@, k as int),
        None => data@,
    };
    let len: usize = data.len();
    let words: usize = len / 2 + len % 2;
    let mut sum: u32 = acc;
    let mut i: usize = 0;
    proof {
        lemma_fold16_step(acc as nat, 0);
    }
    while i < words
        invariant
            i <= words,
            words == word_count(data@),
            len == data@.len(),
            z.len() == data@.len(),
            z == (match skip {
                Some(k) => zero_word(data@, k as int),
                None => data@,
            }),
            sum <= 65535,
            acc <= 65535,
            sum == fold16(acc as nat + word_sum_upto(z, i as nat)),
        decreases words - i,
    {
        let skipped: bool = match skip {
            Some(k) => k == i,
            None => false,
        };
        let hi: u32 = if skipped {
            0
        } else {
            data[2 * i] as u32
        };
        let lo: u32 = if skipped || 2 * i + 1 >= len {
            0
        } else {
            data[2 * i + 1] as u32
        };
        let word: u32 = hi * 256 + lo;
        proof {
            assert(word == word_at(z, i as int));
            lemma_fold16_step(acc as nat + word_sum_upto(z, i as nat), word as nat);
        }
        sum = fold_add(sum, word);
        i = i + 1;
    }
    sum
}

/// The pseudo-header for a segment of `upper_len` bytes.
fn pseudo_header_bytes(src: Ipv6Address, dst: Ipv6Address, upper_len: u32, next_header: u8) -> (r:
    [u8; 40])
    ensures
        r@ == pseudo_header(src@, dst@, upper_len as nat, next_header),
{
    let mut hdr = [0u8;40];
    let mut i: usize = 0;
    while i < 16
        invariant
            i <= 16,
            forall|j: int| 0 <= j < i ==> hdr@[j] == src@[j] && hdr@[16 + j] == dst@[j],
            forall|j: int| 32 <= j < 40 ==> hdr@[j] == 0,
        decreases 16 - i,
    {
        hdr[i] = src.octets[i];
        hdr[16 + i] = dst.octets[i];
        i = i + 1;
    }
    hdr[32] = (upper_len / 16777216 % 256) as u8;
    hdr[33] = (upper_len / 65536 % 256) as u8;
    hdr[34] = (upper_len / 256 % 256) as u8;
    hdr[35] = (upper_len % 256) as u8;
    hdr[39] = next_header;
    assert(hdr@ =~= pseudo_header(src@, dst@, upper_len as nat, next_header));
    hdr
}

/// The checksum of the segment `data` between `src` and `dst`, taken with
/// the `field`-th word of the segment, where the checksum will stand, as
/// zero.
pub fn ipv6_checksum(
    data: &[u8],
    field: usize,
    src: Ipv6Address,
    dst: Ipv6Address,
    next_header: u8,
) -> (r: u16)
    requires
        data@.len() <= u32::MAX,
    ensures
        r == ipv6_checksum_of(data@, src@, dst@, next_header, field as int),
{
    let hdr = pseudo_header_bytes(src, dst, data.len() as u32, next_header);
    let head: u32 = sum_words(0, hdr.as_slice(), None);
    let all: u32 = sum_words(head, data, Some(field));
    proof {
        let z = zero_word(data@, field as int);
        lemma_word_sum_concat(hdr@, z);
        lemma_fold16_absorb(word_sum(hdr@), word_sum(z));
    }
    (65535 - all) as u16
}

/// The checksum of the UDP segment `data`: never zero.
pub fn udp_ipv6_checksum(data: &[u8], src_addr: Ipv6Address, dest_addr: Ipv6Address) -> (r: u16)
    requires
        data@.len() <= u32::MAX,
    ensures
        r == udp_checksum_of(data@, src_addr@, dest_addr@),
        r != 0,
{
    let c: u16 = ipv6_checksum(data, 3, src_addr, dest_addr, NEXT_HEADER_UDP);
    if c == 0 {
        65535
    } else {
        c
    }
}

/// The checksum of the ICMPv6 message `data`.
pub fn icmp_ipv6_checksum(data: &[u8], src_addr: Ipv6Address, dest_addr: Ipv6Address) -> (r: u16)
    requires
        data@.len() <= u32::MAX,
    ensures
        r == echo_checksum_of(data@, src_addr@, dest_addr@),
{
    ipv6_checksum(data, 1, src_addr, dest_addr, NEXT_HEADER_ICMPV6)
}

} // verus!
