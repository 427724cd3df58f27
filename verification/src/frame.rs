//! Frames and the values that can be written into one.

pub mod layout;
pub mod resume;
pub mod version;

use crate::buf::buf_seq;
use crate::frame::resume::Resume;
use bytes::BytesMut;
use vstd::prelude::*;

verus! {

/// A value with a wire encoding.
pub trait Writeable {
    /// The bytes that stand for this value on the wire.
    spec fn wire(&self) -> Seq<u8>;

    /// Appends the encoding to `bf`; what `bf` held before stays in front.
    fn write_to(&self, bf: &mut BytesMut)
        ensures
            buf_seq(*final(bf)) == buf_seq(*old(bf)) + self.wire(),
    ;

    /// The number of bytes that `write_to` appends.
    fn len(&self) -> (n: u32)
        ensures
            n == self.wire().len(),
    ;
}

/// The body of a frame, by frame type.
#[derive(Debug)]
pub enum Body {
    Resume(Resume),
}

/// A frame ready for the transport: the two fields of the outer header and
/// the body they announce.
#[derive(Debug)]
pub struct Frame {
    stream_id: u32,
    flag: u16,
    body: Body,
}

/// What a frame is made of.
pub struct FrameView {
    pub stream_id: u32,
    pub flag: u16,
    pub body: Body,
}

impl View for Frame {
    type V = FrameView;

    closed spec fn view(&self) -> FrameView {
        FrameView { stream_id: self.stream_id, flag: self.flag, body: self.body }
    }
}

impl Frame {
    pub(crate) fn new(stream_id: u32, body: Body, flag: u16) -> (frame: Frame)
        ensures
            frame@ == (FrameView { stream_id, flag, body }),
    {
        Frame { stream_id, flag, body }
    }

    pub fn get_stream_id(&self) -> (id: u32)
        ensures
            id == self@.stream_id,
    {
        self.stream_id
    }

    pub fn get_flag(&self) -> (flag: u16)
        ensures
            flag == self@.flag,
    {
        self.flag
    }

    pub fn get_body(&self) -> (body: &Body)
        ensures
            *body == self@.body,
    {
        &self.body
    }
}

} // verus!
