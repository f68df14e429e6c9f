//! Byte-level helpers shared by every command descriptor block and payload
//! codec: big-endian and little-endian integer fields, zero padding, and the
//! modular byte sum used by the security block checksum.
use vstd::prelude::*;

verus! {

/// Big-endian bytes of a 16-bit value.
pub open spec fn spec_be16(x: u16) -> Seq<u8> {
    seq![(x / 0x100) as u8, (x % 0x100) as u8]
}

/// Big-endian bytes of a 32-bit value.
pub open spec fn spec_be32(x: u32) -> Seq<u8> {
    seq![
        (x / 0x1000000) as u8,
        ((x / 0x10000) % 0x100) as u8,
        ((x / 0x100) % 0x100) as u8,
        (x % 0x100) as u8,
    ]
}

/// Big-endian bytes of a 64-bit value.
pub open spec fn spec_be64(x: u64) -> Seq<u8> {
    seq![
        ((x / 0x100000000000000) % 0x100) as u8,
        ((x / 0x1000000000000) % 0x100) as u8,
        ((x / 0x10000000000) % 0x100) as u8,
        ((x / 0x100000000) % 0x100) as u8,
        ((x / 0x1000000) % 0x100) as u8,
        ((x / 0x10000) % 0x100) as u8,
        ((x / 0x100) % 0x100) as u8,
        (x % 0x100) as u8,
    ]
}

/// Little-endian bytes of a 16-bit value.
pub open spec fn spec_le16(x: u16) -> Seq<u8> {
    seq![(x % 0x100) as u8, (x / 0x100) as u8]
}

/// Little-endian bytes of a 32-bit value.
pub open spec fn spec_le32(x: u32) -> Seq<u8> {
    seq![
        (x % 0x100) as u8,
        ((x / 0x100) % 0x100) as u8,
        ((x / 0x10000) % 0x100) as u8,
        (x / 0x1000000) as u8,
    ]
}

/// The 16-bit value read big-endian at offset `i`.
pub open spec fn spec_read_be16(s: Seq<u8>, i: int) -> u16 {
    (s[i] * 0x100 + s[i + 1]) as u16
}

/// The 32-bit value read big-endian at offset `i`.
pub open spec fn spec_read_be32(s: Seq<u8>, i: int) -> u32 {
    (s[i] * 0x1000000 + s[i + 1] * 0x10000 + s[i + 2] * 0x100 + s[i + 3]) as u32
}

/// The 64-bit value read big-endian at offset `i`.
pub open spec fn spec_read_be64(s: Seq<u8>, i: int) -> u64 {
    (spec_read_be32(s, i) * 0x100000000 + spec_read_be32(s, i + 4)) as u64
}

/// The 32-bit value read little-endian at offset `i`.
pub open spec fn spec_read_le32(s: Seq<u8>, i: int) -> u32 {
    (s[i + 3] * 0x1000000 + s[i + 2] * 0x10000 + s[i + 1] * 0x100 + s[i]) as u32
}

/// The 16-bit value read little-endian at offset `i`.
pub open spec fn spec_read_le16(s: Seq<u8>, i: int) -> u16 {
    (s[i + 1] * 0x100 + s[i]) as u16
}

pub fn push_be16(out: &mut Vec<u8>, x: u16)
    ensures
        final(out)@ == old(out)@ + spec_be16(x),
{
    out.push((x / 0x100) as u8);
    out.push((x % 0x100) as u8);
    proof {
        assert(out@ =~= old(out)@ + spec_be16(x));
    }
}

pub fn push_be32(out: &mut Vec<u8>, x: u32)
    ensures
        final(out)@ == old(out)@ + spec_be32(x),
{
    out.push((x / 0x1000000) as u8);
    out.push(((x / 0x10000) % 0x100) as u8);
    out.push(((x / 0x100) % 0x100) as u8);
    out.push((x % 0x100) as u8);
    proof {
        assert(out@ =~= old(out)@ + spec_be32(x));
    }
}

pub fn push_be64(out: &mut Vec<u8>, x: u64)
    ensures
        final(out)@ == old(out)@ + spec_be64(x),
{
    out.push(((x / 0x100000000000000) % 0x100) as u8);
    out.push(((x / 0x1000000000000) % 0x100) as u8);
    out.push(((x / 0x10000000000) % 0x100) as u8);
    out.push(((x / 0x100000000) % 0x100) as u8);
    out.push(((x / 0x1000000) % 0x100) as u8);
    out.push(((x / 0x10000) % 0x100) as u8);
    out.push(((x / 0x100) % 0x100) as u8);
    out.push((x % 0x100) as u8);
    proof {
        assert(out@ =~= old(out)@ + spec_be64(x));
    }
}

pub fn push_le16(out: &mut Vec<u8>, x: u16)
    ensures
        final(out)@ == old(out)@ + spec_le16(x),
{
    out.push((x % 0x100) as u8);
    out.push((x / 0x100) as u8);
    proof {
        assert(out@ =~= old(out)@ + spec_le16(x));
    }
}

pub fn push_le32(out: &mut Vec<u8>, x: u32)
    ensures
        final(out)@ == old(out)@ + spec_le32(x),
{
    out.push((x % 0x100) as u8);
    out.push(((x / 0x100) % 0x100) as u8);
    out.push(((x / 0x10000) % 0x100) as u8);
    out.push((x / 0x1000000) as u8);
    proof {
        assert(out@ =~= old(out)@ + spec_le32(x));
    }
}

/// `n` zero bytes.
pub open spec fn spec_zeros(n: nat) -> Seq<u8> {
    Seq::new(n, |i: int| 0u8)
}

/// Appends `n` zero bytes.
pub fn push_zeros(out: &mut Vec<u8>, n: usize)
    ensures
        final(out)@ == old(out)@ + spec_zeros(n as nat),
{
    let mut i: usize = 0;
    while i < n
        invariant
            0 <= i <= n,
            out@ == old(out)@ + spec_zeros(i as nat),
        decreases n - i,
    {
        out.push(0);
        proof {
            assert(out@ =~= old(out)@ + spec_zeros((i + 1) as nat));
        }
        i += 1;
    }
}

/// Appends a copy of `src`.
pub fn push_bytes(out: &mut Vec<u8>, src: &[u8])
    ensures
        final(out)@ == old(out)@ + src@,
{
    let n = src.len();
    let mut i: usize = 0;
    while i < n
        invariant
            0 <= i <= n,
            n == src@.len(),
            out@ == old(out)@ + src@.take(i as int),
        decreases n - i,
    {
        out.push(src[i]);
        proof {
            assert(src@.take(i + 1) =~= src@.take(i as int).push(src@[i as int]));
            assert(out@ =~= old(out)@ + src@.take(i + 1));
        }
        i += 1;
    }
    proof {
        assert(src@.take(n as int) =~= src@);
    }
}

pub fn read_be16(s: &[u8], i: usize) -> (r: u16)
    requires
        i + 2 <= s@.len(),
    ensures
        r == spec_read_be16(s@, i as int),
{
    (s[i] as u16) * 0x100 + (s[i + 1] as u16)
}

pub fn read_be32(s: &[u8], i: usize) -> (r: u32)
    requires
        i + 4 <= s@.len(),
    ensures
        r == spec_read_be32(s@, i as int),
{
    (s[i] as u32) * 0x1000000 + (s[i + 1] as u32) * 0x10000 + (s[i + 2] as u32) * 0x100 + (s[i
        + 3] as u32)
}

pub fn read_be64(s: &[u8], i: usize) -> (r: u64)
    requires
        i + 8 <= s@.len(),
    ensures
        r == spec_read_be64(s@, i as int),
{
    let _len = s.len();
    let hi = read_be32(s, i);
    let lo = read_be32(s, i + 4);
    (hi as u64) * 0x100000000 + (lo as u64)
}

pub fn read_le32(s: &[u8], i: usize) -> (r: u32)
    requires
        i + 4 <= s@.len(),
    ensures
        r == spec_read_le32(s@, i as int),
{
    let _len = s.len();
    (s[i + 3] as u32) * 0x1000000 + (s[i + 2] as u32) * 0x10000 + (s[i + 1] as u32) * 0x100 + (
    s[i] as u32)
}

pub fn read_le16(s: &[u8], i: usize) -> (r: u16)
    requires
        i + 2 <= s@.len(),
    ensures
        r == spec_read_le16(s@, i as int),
{
    let _len = s.len();
    (s[i + 1] as u16) * 0x100 + (s[i] as u16)
}

/// Sum of all bytes, as an unbounded integer.
pub open spec fn spec_byte_sum(s: Seq<u8>) -> int
    decreases s.len(),
{
    if s.len() == 0 {
        0
    } else {
        spec_byte_sum(s.drop_last()) + s.last()
    }
}

pub proof fn lemma_byte_sum_nonneg(s: Seq<u8>)
    ensures
        spec_byte_sum(s) >= 0,
    decreases s.len(),
{
    if s.len() > 0 {
        lemma_byte_sum_nonneg(s.drop_last());
    }
}

pub proof fn lemma_byte_sum_append(a: Seq<u8>, b: Seq<u8>)
    ensures
        spec_byte_sum(a + b) == spec_byte_sum(a) + spec_byte_sum(b),
    decreases b.len(),
{
    if b.len() == 0 {
        assert(a + b =~= a);
    } else {
        lemma_byte_sum_append(a, b.drop_last());
        assert((a + b).drop_last() =~= a + b.drop_last());
        assert((a + b).last() == b.last());
    }
}

/// The wrapping byte sum, as the device computes it.
pub fn byte_sum_mod(s: &[u8]) -> (r: u8)
    ensures
        r == spec_byte_sum(s@) % 0x100,
{
    let n = s.len();
    let mut sum: u8 = 0;
    let mut i: usize = 0;
    while i < n
        invariant
            0 <= i <= n,
            n == s@.len(),
            sum == spec_byte_sum(s@.take(i as int)) % 0x100,
        decreases n - i,
    {
        proof {
            assert(s@.take(i + 1).drop_last() =~= s@.take(i as int));
            assert(s@.take(i + 1).last() == s@[i as int]);
            lemma_byte_sum_nonneg(s@.take(i as int));
        }
        let b = s[i];
        sum = ((sum as u16 + b as u16) % 0x100) as u8;
        i += 1;
    }
    proof {
        assert(s@.take(n as int) =~= s@);
    }
    sum
}

/// A fresh copy of the bytes.
pub fn copy_bytes(src: &[u8]) -> (r: Vec<u8>)
    ensures
        r@ == src@,
{
    let mut r: Vec<u8> = Vec::new();
    push_bytes(&mut r, src);
    proof {
        assert(r@ =~= src@);
    }
    r
}

/// A fresh copy of the byte range `[i, j)`.
pub fn subrange_bytes(src: &[u8], i: usize, j: usize) -> (r: Vec<u8>)
    requires
        i <= j <= src@.len(),
    ensures
        r@ == src@.subrange(i as int, j as int),
{
    let s = vstd::slice::slice_subrange(src, i, j);
    let mut r: Vec<u8> = Vec::new();
    push_bytes(&mut r, s);
    proof {
        assert(r@ =~= src@.subrange(i as int, j as int));
    }
    r
}

/// `p` truncated or zero-padded to exactly `n` bytes.
pub open spec fn spec_padded(p: Seq<u8>, n: nat) -> Seq<u8> {
    if p.len() >= n {
        p.take(n as int)
    } else {
        p + spec_zeros((n - p.len()) as nat)
    }
}

/// Appends `src` truncated or zero-padded to exactly `n` bytes.
pub fn push_padded(out: &mut Vec<u8>, src: &[u8], n: usize)
    ensures
        final(out)@ == old(out)@ + spec_padded(src@, n as nat),
{
    if src.len() >= n {
        let s = vstd::slice::slice_subrange(src, 0, n);
        push_bytes(out, s);
        proof {
            assert(src@.subrange(0, n as int) =~= src@.take(n as int));
        }
    } else {
        push_bytes(out, src);
        push_zeros(out, n - src.len());
        proof {
            assert(out@ =~= old(out)@ + (src@ + spec_zeros((n - src@.len()) as nat)));
        }
    }
}

pub proof fn lemma_be32_round_trip(x: u32)
    ensures
        spec_read_be32(spec_be32(x), 0) == x,
{
    assert((x / 0x1000000) * 0x1000000 + ((x / 0x10000) % 0x100) * 0x10000 + ((x / 0x100)
        % 0x100) * 0x100 + (x % 0x100) == x) by (bit_vector);
}

pub proof fn lemma_le32_round_trip(x: u32)
    ensures
        spec_read_le32(spec_le32(x), 0) == x,
{
    assert((x / 0x1000000) * 0x1000000 + ((x / 0x10000) % 0x100) * 0x10000 + ((x / 0x100)
        % 0x100) * 0x100 + (x % 0x100) == x) by (bit_vector);
}

} // verus!
