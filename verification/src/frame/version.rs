//! The protocol version that opens a resumption frame.

use crate::big_endian::{lemma_u16_be_bytes_len, u16_be_bytes};
use crate::frame::Writeable;
use crate::put::put_u16_be;
use bytes::BytesMut;
use vstd::prelude::*;

verus! {

/// A protocol version. On the wire it is four bytes: the major number, then
/// the minor number, each big-endian.
#[derive(Debug, Clone, Copy, PartialEq, Eq, Structural)]
pub struct Version {
    pub major: u16,
    pub minor: u16,
}

impl Version {
    pub fn new(major: u16, minor: u16) -> (v: Version)
        ensures
            v == (Version { major, minor }),
    {
        Version { major, minor }
    }

    pub fn get_major(&self) -> (major: u16)
        ensures
            major == self.major,
    {
        self.major
    }

    pub fn get_minor(&self) -> (minor: u16)
        ensures
            minor == self.minor,
    {
        self.minor
    }
}

impl Default for Version {
    /// The zero version, which a frame carries until one is set.
    fn default() -> (v: Version)
        ensures
            v == (Version { major: 0, minor: 0 }),
    {
        Version { major: 0, minor: 0 }
    }
}

impl Writeable for Version {
    open spec fn wire(&self) -> Seq<u8> {
        u16_be_bytes(self.major) + u16_be_bytes(self.minor)
    }

    fn write_to(&self, bf: &mut BytesMut) {
        put_u16_be(bf, self.major);
        put_u16_be(bf, self.minor);
    }

    fn len(&self) -> (n: u32)
        ensures
            n == 4,
    {
        proof {
            lemma_u16_be_bytes_len(self.major);
            lemma_u16_be_bytes_len(self.minor);
        }
        4
    }
}

} // verus!
