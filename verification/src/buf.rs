//! The byte buffers of the `bytes` crate, as the verifier sees them.
//!
//! A `Bytes` or `BytesMut` is opaque to the verifier. Each is described by
//! the sequence of bytes it currently holds, and every fact stated here
//! about a buffer operation is taken on trust from the crate's source:
//! nothing in this file is proved.

use crate::big_endian::{be_u16, be_u64, u16_be_bytes, u64_be_bytes};
use bytes::{BigEndian, ByteOrder, Bytes, BytesMut};
use vstd::prelude::*;

verus! {

/// `bytes::Bytes`, a shared immutable buffer, carried through as it is.
#[verifier::external_type_specification]
#[verifier::external_body]
pub struct ExBytes(bytes::Bytes);

/// `bytes::BytesMut`, an exclusively owned buffer, carried through as it is.
#[verifier::external_type_specification]
#[verifier::external_body]
pub struct ExBytesMut(bytes::BytesMut);

/// The bytes that an immutable buffer holds, first to last.
pub uninterp spec fn bytes_seq(b: Bytes) -> Seq<u8>;

/// The bytes that a mutable buffer holds, first to last. Spare capacity
/// behind them is not part of the value.
pub uninterp spec fn buf_seq(b: BytesMut) -> Seq<u8>;

/// `Bytes::len` is the number of bytes held.
#[verifier::external_body]
pub(crate) fn bytes_len(b: &Bytes) -> (n: usize)
    ensures
        n == bytes_seq(*b).len(),
{
    b.len()
}

/// `BytesMut::len` is the number of bytes held.
#[verifier::external_body]
pub(crate) fn buf_len(b: &BytesMut) -> (n: usize)
    ensures
        n == buf_seq(*b).len(),
{
    b.len()
}

/// `BytesMut::advance` drops the first `cnt` bytes and keeps the rest. It
/// panics when `cnt` exceeds the length, which the precondition rules out.
pub assume_specification[ BytesMut::advance ](b: &mut BytesMut, cnt: usize)
    requires
        cnt <= buf_seq(*old(b)).len(),
    ensures
        buf_seq(*final(b)) == buf_seq(*old(b)).skip(cnt as int),
;

/// `BytesMut::split_to` hands out the first `at` bytes as a buffer of their
/// own and keeps the rest. It panics when `at` exceeds the length, which the
/// precondition rules out.
pub assume_specification[ BytesMut::split_to ](b: &mut BytesMut, at: usize) -> (head: BytesMut)
    requires
        at <= buf_seq(*old(b)).len(),
    ensures
        buf_seq(head) == buf_seq(*old(b)).take(at as int),
        buf_seq(*final(b)) == buf_seq(*old(b)).skip(at as int),
;

/// `BytesMut::extend_from_slice` appends the slice. Where the capacity is
/// short it grows the buffer first, so that, unlike the `put` family, it
/// does not panic for want of room. As with `Vec`, running out of memory
/// while growing is outside what the contract speaks of.
pub assume_specification[ BytesMut::extend_from_slice ](b: &mut BytesMut, extend: &[u8])
    ensures
        buf_seq(*final(b)) == buf_seq(*old(b)) + extend@,
;

/// `Bytes::from` freezes a mutable buffer: the bytes stay as they are.
#[verifier::external_body]
pub(crate) fn freeze(b: BytesMut) -> (frozen: Bytes)
    ensures
        bytes_seq(frozen) == buf_seq(b),
{
    Bytes::from(b)
}

/// `Bytes::clone` gives a second handle to the same bytes.
#[verifier::external_body]
pub(crate) fn share(b: &Bytes) -> (other: Bytes)
    ensures
        bytes_seq(other) == bytes_seq(*b),
{
    b.clone()
}

/// `Bytes::deref` gives the bytes held as a slice.
#[verifier::external_body]
pub(crate) fn bytes_as_slice(b: &Bytes) -> (s: &[u8])
    ensures
        s@ == bytes_seq(*b),
{
    b
}

/// `BytesMut::deref` gives the bytes held as a slice.
#[verifier::external_body]
pub(crate) fn buf_as_slice(b: &BytesMut) -> (s: &[u8])
    ensures
        s@ == buf_seq(*b),
{
    b
}

/// `BigEndian::read_u16` reads the first two bytes of the slice as one
/// integer, most significant byte first. It panics on a shorter slice,
/// which the precondition rules out.
#[verifier::external_body]
pub(crate) fn read_u16(s: &[u8]) -> (v: u16)
    requires
        s@.len() >= 2,
    ensures
        v == be_u16(s@),
{
    BigEndian::read_u16(s)
}

/// `BigEndian::read_u64` reads the first eight bytes of the slice as one
/// integer, most significant byte first. It panics on a shorter slice,
/// which the precondition rules out.
#[verifier::external_body]
pub(crate) fn read_u64(s: &[u8]) -> (v: u64)
    requires
        s@.len() >= 8,
    ensures
        v == be_u64(s@),
{
    BigEndian::read_u64(s)
}

/// `BigEndian::write_u16` fills two bytes with the integer, most
/// significant byte first.
#[verifier::external_body]
pub(crate) fn u16_field(v: u16) -> (field: [u8; 2])
    ensures
        field@ == u16_be_bytes(v),
{
    let mut field = [0u8; 2];
    BigEndian::write_u16(&mut field, v);
    field
}

/// `BigEndian::write_u64` fills eight bytes with the integer, most
/// significant byte first.
#[verifier::external_body]
pub(crate) fn u64_field(v: u64) -> (field: [u8; 8])
    ensures
        field@ == u64_be_bytes(v),
{
    let mut field = [0u8; 8];
    BigEndian::write_u64(&mut field, v);
    field
}

} // verus!
