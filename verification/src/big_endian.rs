//! Big-endian integers as byte sequences.
//!
//! The wire format writes every integer most significant byte first. The
//! spec functions here say which bytes stand for which value, and the
//! lemmas show that the two directions undo each other.

use vstd::prelude::*;

verus! {

/// The value of the first two bytes of `s`, most significant first.
#[verifier::opaque]
pub open spec fn be_u16(s: Seq<u8>) -> u16
    recommends
        s.len() >= 2,
{
    (s[0] as int * 0x100 + s[1] as int) as u16
}

/// The two bytes that stand for `v`, most significant first.
#[verifier::opaque]
pub open spec fn u16_be_bytes(v: u16) -> Seq<u8> {
    seq![(v / 0x100) as u8, (v % 0x100) as u8]
}

/// The value of the first eight bytes of `s`, most significant first.
#[verifier::opaque]
pub open spec fn be_u64(s: Seq<u8>) -> u64
    recommends
        s.len() >= 8,
{
    (s[0] as int * 0x100_0000_0000_0000 + s[1] as int * 0x1_0000_0000_0000 + s[2] as int
        * 0x100_0000_0000 + s[3] as int * 0x1_0000_0000 + s[4] as int * 0x100_0000 + s[5] as int
        * 0x1_0000 + s[6] as int * 0x100 + s[7] as int) as u64
}

/// The eight bytes that stand for `v`, most significant first.
#[verifier::opaque]
pub open spec fn u64_be_bytes(v: u64) -> Seq<u8> {
    seq![
        (v / 0x100_0000_0000_0000) as u8,
        (v / 0x1_0000_0000_0000 % 0x100) as u8,
        (v / 0x100_0000_0000 % 0x100) as u8,
        (v / 0x1_0000_0000 % 0x100) as u8,
        (v / 0x100_0000 % 0x100) as u8,
        (v / 0x1_0000 % 0x100) as u8,
        (v / 0x100 % 0x100) as u8,
        (v % 0x100) as u8,
    ]
}

/// A 16-bit value is written as two bytes.
pub proof fn lemma_u16_be_bytes_len(v: u16)
    ensures
        u16_be_bytes(v).len() == 2,
{
    reveal(u16_be_bytes);
}

/// A 64-bit value is written as eight bytes.
pub proof fn lemma_u64_be_bytes_len(v: u64)
    ensures
        u64_be_bytes(v).len() == 8,
{
    reveal(u64_be_bytes);
}

/// Reading back the bytes written for a 16-bit value gives that value,
/// whatever follows them.
pub proof fn lemma_u16_written_then_read(v: u16, rest: Seq<u8>)
    ensures
        u16_be_bytes(v).len() == 2,
        be_u16(u16_be_bytes(v) + rest) == v,
{
    reveal(be_u16);
    reveal(u16_be_bytes);
}

/// Writing the value read from two bytes gives those two bytes.
pub proof fn lemma_u16_read_then_written(s: Seq<u8>)
    requires
        s.len() >= 2,
    ensures
        u16_be_bytes(be_u16(s)) == s.take(2),
{
    reveal(be_u16);
    reveal(u16_be_bytes);
    assert(u16_be_bytes(be_u16(s)) =~= s.take(2));
}

/// Reading back the bytes written for a 64-bit value gives that value,
/// whatever follows them.
pub proof fn lemma_u64_written_then_read(v: u64, rest: Seq<u8>)
    ensures
        u64_be_bytes(v).len() == 8,
        be_u64(u64_be_bytes(v) + rest) == v,
{
    reveal(be_u64);
    reveal(u64_be_bytes);
    assert(v / 0x100_0000_0000_0000 * 0x100_0000_0000_0000 + v / 0x1_0000_0000_0000 % 0x100
        * 0x1_0000_0000_0000 + v / 0x100_0000_0000 % 0x100 * 0x100_0000_0000 + v / 0x1_0000_0000
        % 0x100 * 0x1_0000_0000 + v / 0x100_0000 % 0x100 * 0x100_0000 + v / 0x1_0000 % 0x100
        * 0x1_0000 + v / 0x100 % 0x100 * 0x100 + v % 0x100 == v) by (bit_vector);
    assert(v / 0x100_0000_0000_0000 < 0x100) by (bit_vector);
}

/// Writing the value read from eight bytes gives those eight bytes.
pub proof fn lemma_u64_read_then_written(s: Seq<u8>)
    requires
        s.len() >= 8,
    ensures
        u64_be_bytes(be_u64(s)) == s.take(8),
{
    reveal(be_u64);
    reveal(u64_be_bytes);
    let (b0, b1, b2, b3, b4, b5, b6, b7) = (s[0], s[1], s[2], s[3], s[4], s[5], s[6], s[7]);
    let v = be_u64(s);
    assert({
        let x = b0 * 0x100_0000_0000_0000 + b1 * 0x1_0000_0000_0000 + b2 * 0x100_0000_0000 + b3
            * 0x1_0000_0000 + b4 * 0x100_0000 + b5 * 0x1_0000 + b6 * 0x100 + b7;
        &&& x < 0x1_0000_0000_0000_0000
        &&& x / 0x100_0000_0000_0000 == b0
        &&& x / 0x1_0000_0000_0000 % 0x100 == b1
        &&& x / 0x100_0000_0000 % 0x100 == b2
        &&& x / 0x1_0000_0000 % 0x100 == b3
        &&& x / 0x100_0000 % 0x100 == b4
        &&& x / 0x1_0000 % 0x100 == b5
        &&& x / 0x100 % 0x100 == b6
        &&& x % 0x100 == b7
    }) by (bit_vector);
    assert(u64_be_bytes(v) =~= s.take(8));
}

/// Zero is written as two zero bytes.
pub proof fn lemma_zero_size_field()
    ensures
        u16_be_bytes(0) == seq![0u8, 0u8],
{
    reveal(u16_be_bytes);
    assert(u16_be_bytes(0) =~= seq![0u8, 0u8]);
}

/// Only the first two bytes count towards a 16-bit value.
pub proof fn lemma_u16_reads_two(s: Seq<u8>, t: Seq<u8>)
    requires
        s.len() >= 2,
        t.len() >= 2,
        s.take(2) == t.take(2),
    ensures
        be_u16(s) == be_u16(t),
{
    reveal(be_u16);
    assert(s[0] == s.take(2)[0] && s[1] == s.take(2)[1]);
    assert(t[0] == t.take(2)[0] && t[1] == t.take(2)[1]);
}

} // verus!
