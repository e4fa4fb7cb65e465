//! Fixed-width integer fields and the packed flag byte, with their byte layouts.
use vstd::prelude::*;

verus! {

/// The two bytes of a `u16`, most significant first.
pub open spec fn u16_be(v: u16) -> Seq<u8> {
    seq![(v >> 8u16) as u8, v as u8]
}

/// The two bytes of an `i16`, least significant first.
pub open spec fn i16_le(v: i16) -> Seq<u8> {
    seq![v as u8, ((v as u16) >> 8u16) as u8]
}

/// The two bytes of an `i16`, most significant first.
pub open spec fn i16_be(v: i16) -> Seq<u8> {
    seq![((v as u16) >> 8u16) as u8, v as u8]
}

/// Reads a big-endian `u16`.
pub fn read_u16_be(hi: u8, lo: u8) -> (r: u16)
    ensures
        u16_be(r) == seq![hi, lo],
{
    let r: u16 = ((hi as u16) << 8u16) | (lo as u16);
    assert((r >> 8u16) as u8 == hi && r as u8 == lo) by (bit_vector)
        requires
            r == ((hi as u16) << 8u16) | (lo as u16),
    ;
    r
}

/// Reads a little-endian `i16`.
pub fn read_i16_le(lo: u8, hi: u8) -> (r: i16)
    ensures
        i16_le(r) == seq![lo, hi],
{
    let u: u16 = ((hi as u16) << 8u16) | (lo as u16);
    let r: i16 = u as i16;
    assert(r as u8 == lo && ((r as u16) >> 8u16) as u8 == hi) by (bit_vector)
        requires
            u == ((hi as u16) << 8u16) | (lo as u16),
            r == u as i16,
    ;
    r
}

/// Reads a big-endian `i16`.
pub fn read_i16_be(hi: u8, lo: u8) -> (r: i16)
    ensures
        i16_be(r) == seq![hi, lo],
{
    let r = read_i16_le(lo, hi);
    r
}

/// Distinct values have distinct big-endian bytes.
pub proof fn lemma_u16_be_injective(a: u16, b: u16)
    requires
        u16_be(a) == u16_be(b),
    ensures
        a == b,
{
    assert(u16_be(a)[0] == u16_be(b)[0] && u16_be(a)[1] == u16_be(b)[1]);
    assert(a == b) by (bit_vector)
        requires
            (a >> 8u16) as u8 == (b >> 8u16) as u8,
            a as u8 == b as u8,
    ;
}

/// Distinct values have distinct little-endian bytes.
pub proof fn lemma_i16_le_injective(a: i16, b: i16)
    requires
        i16_le(a) == i16_le(b),
    ensures
        a == b,
{
    assert(i16_le(a)[0] == i16_le(b)[0] && i16_le(a)[1] == i16_le(b)[1]);
    assert(a == b) by (bit_vector)
        requires
            a as u8 == b as u8,
            ((a as u16) >> 8u16) as u8 == ((b as u16) >> 8u16) as u8,
    ;
}

/// Distinct values have distinct big-endian bytes.
pub proof fn lemma_i16_be_injective(a: i16, b: i16)
    requires
        i16_be(a) == i16_be(b),
    ensures
        a == b,
{
    assert(i16_be(a)[0] == i16_be(b)[0] && i16_be(a)[1] == i16_be(b)[1]);
    lemma_i16_le_injective(a, b);
}

/// Copies `N` bytes starting at `at` into an array.
pub fn read_array<const N: usize>(b: &[u8], at: usize) -> (r: [u8; N])
    requires
        at + N <= b@.len(),
    ensures
        r@ == b@.subrange(at as int, at + N),
{
    let len: usize = b.len();
    let mut r: [u8; N] = [0u8; N];
    let mut i: usize = 0;
    while i < N
        invariant
            i <= N,
            at + N <= b@.len(),
            len == b@.len(),
            r@.len() == N,
            forall|j: int| 0 <= j < i ==> r@[j] == b@[at + j],
        decreases N - i,
    {
        r[i] = b[at + i];
        i += 1;
    }
    assert(r@ =~= b@.subrange(at as int, at + N));
    r
}

/// Appends every byte of `s` to `out`.
pub fn append_bytes(out: &mut Vec<u8>, s: &[u8])
    ensures
        final(out)@ == old(out)@ + s@,
{
    let ghost start = out@;
    let mut i: usize = 0;
    while i < s.len()
        invariant
            i <= s@.len(),
            out@ == start + s@.subrange(0, i as int),
        decreases s@.len() - i,
    {
        out.push(s[i]);
        i += 1;
        assert(out@ =~= start + s@.subrange(0, i as int));
    }
    assert(s@.subrange(0, s@.len() as int) =~= s@);
}

} // verus!
