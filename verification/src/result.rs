//! The ways in which decoding or assembling a frame fails.

use vstd::prelude::*;

verus! {

/// Why a frame was rejected.
#[derive(Debug, Clone, Copy, PartialEq, Eq, Structural)]
pub enum RSocketError {
    /// The buffer ends before a field that the frame requires.
    TruncatedInput,
    /// A resume token is longer than its 16-bit length field can express.
    OversizedToken,
}

pub type RSocketResult<T> = Result<T, RSocketError>;

} // verus!
