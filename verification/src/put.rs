//! Appending the fields of a frame to a buffer.

use crate::big_endian::{u16_be_bytes, u64_be_bytes};
use crate::buf::{buf_seq, bytes_as_slice, bytes_seq, u16_field, u64_field};
use bytes::{Bytes, BytesMut};
use vstd::prelude::*;

verus! {

/// Appends a 16-bit integer, most significant byte first.
pub fn put_u16_be(bf: &mut BytesMut, v: u16)
    ensures
        buf_seq(*final(bf)) == buf_seq(*old(bf)) + u16_be_bytes(v),
{
    let field = u16_field(v);
    bf.extend_from_slice(field.as_slice());
}

/// Appends a 64-bit integer, most significant byte first.
pub fn put_u64_be(bf: &mut BytesMut, v: u64)
    ensures
        buf_seq(*final(bf)) == buf_seq(*old(bf)) + u64_be_bytes(v),
{
    let field = u64_field(v);
    bf.extend_from_slice(field.as_slice());
}

/// Appends the bytes that `src` holds.
pub fn put(bf: &mut BytesMut, src: &Bytes)
    ensures
        buf_seq(*final(bf)) == buf_seq(*old(bf)) + bytes_seq(*src),
{
    bf.extend_from_slice(bytes_as_slice(src));
}

} // verus!
