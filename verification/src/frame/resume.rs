//! The resumption frame body and the builder that assembles one.

use crate::big_endian::lemma_u16_reads_two;
use crate::buf::{
    buf_as_slice, buf_len, buf_seq, bytes_len, bytes_seq, freeze, read_u16, read_u64, share,
};
use crate::frame::layout::{lemma_encoding_len, parse, ResumeView, FIXED_LEN, MAX_TOKEN_LEN};
use crate::frame::version::Version;
use crate::frame::{Body, Frame, Writeable};
use crate::put::{put, put_u16_be, put_u64_be};
use crate::result::{RSocketError, RSocketResult};
use bytes::{Bytes, BytesMut};
use vstd::prelude::*;
use vstd::slice::slice_subrange;

verus! {

/// One resumption frame body. A value never changes once it exists, and a
/// token it holds always fits the 16-bit length field.
#[derive(Debug)]
pub struct Resume {
    version: Version,
    token: Option<Bytes>,
    last_received_server_position: u64,
    first_available_client_position: u64,
}

/// A resumption frame in the making, with the stream identifier and flags
/// that the outer header of the finished frame will carry.
pub struct ResumeBuilder {
    stream_id: u32,
    flag: u16,
    inner: Resume,
}

/// What a builder has collected so far.
pub struct ResumeBuilderView {
    pub stream_id: u32,
    pub flag: u16,
    pub resume: ResumeView,
}

impl ResumeBuilderView {
    /// The same collection with `token` as its token.
    pub open spec fn with_token(self, token: Seq<u8>) -> ResumeBuilderView {
        ResumeBuilderView { resume: ResumeView { token: Some(token), ..self.resume }, ..self }
    }
}

impl View for Resume {
    type V = ResumeView;

    closed spec fn view(&self) -> ResumeView {
        ResumeView {
            version: self.version,
            token: match self.token {
                Some(t) => Some(bytes_seq(t)),
                None => None,
            },
            last_received_server_position: self.last_received_server_position,
            first_available_client_position: self.first_available_client_position,
        }
    }
}

impl View for ResumeBuilder {
    type V = ResumeBuilderView;

    closed spec fn view(&self) -> ResumeBuilderView {
        ResumeBuilderView { stream_id: self.stream_id, flag: self.flag, resume: self.inner@ }
    }
}

impl Resume {
    #[verifier::type_invariant]
    spec fn inv(self) -> bool {
        self@.wf()
    }

    fn new() -> (resume: Resume)
        ensures
            resume@ == ResumeView::zero(),
    {
        Resume {
            version: Version::default(),
            token: None,
            last_received_server_position: 0,
            first_available_client_position: 0,
        }
    }

    /// Reads one body from the front of `b`.
    ///
    /// When `b` holds a whole body, the body is returned and `b` is left
    /// with what follows it. When `b` ends before the body does, the error
    /// is `TruncatedInput` and `b` is left as it was. The flags of the outer
    /// header do not change how a body is read.
    #[allow(unused_variables)]
    pub fn decode(flag: u16, b: &mut BytesMut) -> (res: RSocketResult<Resume>)
        ensures
            match parse(buf_seq(*old(b))) {
                Some((v, n)) => {
                    &&& res matches Ok(resume)
                    &&& resume@ == v
                    &&& buf_seq(*final(b)) == buf_seq(*old(b)).skip(n as int)
                },
                None => {
                    &&& res == Err::<Resume, RSocketError>(RSocketError::TruncatedInput)
                    &&& buf_seq(*final(b)) == buf_seq(*old(b))
                },
            },
    {
        let ghost s = buf_seq(*b);
        let len = buf_len(b);
        if len < 6 {
            return Err(RSocketError::TruncatedInput);
        }
        let head = buf_as_slice(b);
        let major = read_u16(head);
        let minor = read_u16(slice_subrange(head, 2, 4));
        let token_size = read_u16(slice_subrange(head, 4, 6)) as usize;
        proof {
            assert(s.subrange(2, 4).take(2) =~= s.skip(2).take(2));
            lemma_u16_reads_two(s.subrange(2, 4), s.skip(2));
            assert(s.subrange(4, 6).take(2) =~= s.skip(4).take(2));
            lemma_u16_reads_two(s.subrange(4, 6), s.skip(4));
        }
        if len - 6 < token_size + 16 {
            return Err(RSocketError::TruncatedInput);
        }
        b.advance(6);
        let token = if token_size > 0 {
            Some(freeze(b.split_to(token_size)))
        } else {
            None
        };
        let last_received = read_u64(buf_as_slice(b));
        b.advance(8);
        let first_available = read_u64(buf_as_slice(b));
        b.advance(8);
        proof {
            let n = token_size as int;
            assert(s.skip(6).take(n) =~= s.subrange(6, 6 + n));
            assert(s.skip(6).skip(n) =~= s.skip(6 + n));
            assert(s.skip(6 + n).skip(8) =~= s.skip(14 + n));
        }
        Ok(
            Resume {
                version: Version::new(major, minor),
                token: token,
                last_received_server_position: last_received,
                first_available_client_position: first_available,
            },
        )
    }

    /// Starts a frame for the given stream and header flags, with the zero
    /// version, no token and both positions zero.
    pub fn builder(stream_id: u32, flag: u16) -> (builder: ResumeBuilder)
        ensures
            builder@ == (ResumeBuilderView { stream_id, flag, resume: ResumeView::zero() }),
    {
        ResumeBuilder::new(stream_id, flag)
    }

    pub fn get_version(&self) -> (version: Version)
        ensures
            version == self@.version,
    {
        self.version
    }

    /// A second handle to the token, when there is one.
    pub fn get_token(&self) -> (token: Option<Bytes>)
        ensures
            match token {
                Some(t) => self@.token == Some(bytes_seq(t)),
                None => self@.token is None,
            },
    {
        match &self.token {
            Some(t) => Some(share(t)),
            None => None,
        }
    }

    pub fn get_last_received_server_position(&self) -> (position: u64)
        ensures
            position == self@.last_received_server_position,
    {
        self.last_received_server_position
    }

    pub fn get_first_available_client_position(&self) -> (position: u64)
        ensures
            position == self@.first_available_client_position,
    {
        self.first_available_client_position
    }
}

impl ResumeBuilder {
    fn new(stream_id: u32, flag: u16) -> (builder: ResumeBuilder)
        ensures
            builder@ == (ResumeBuilderView { stream_id, flag, resume: ResumeView::zero() }),
    {
        ResumeBuilder { stream_id: stream_id, flag: flag, inner: Resume::new() }
    }

    /// Sets the token. The token must fit the 16-bit length field; use
    /// `try_set_token` for one of unknown length.
    pub fn set_token(self, token: Bytes) -> (builder: ResumeBuilder)
        requires
            bytes_seq(token).len() <= MAX_TOKEN_LEN,
        ensures
            builder@ == self@.with_token(bytes_seq(token)),
    {
        let mut builder = self;
        builder.inner.token = Some(token);
        builder
    }

    /// Sets the token when it fits the 16-bit length field, and rejects it
    /// as `OversizedToken` when it does not.
    pub fn try_set_token(self, token: Bytes) -> (res: RSocketResult<ResumeBuilder>)
        ensures
            match res {
                Ok(builder) => {
                    &&& bytes_seq(token).len() <= MAX_TOKEN_LEN
                    &&& builder@ == self@.with_token(bytes_seq(token))
                },
                Err(e) => {
                    &&& bytes_seq(token).len() > MAX_TOKEN_LEN
                    &&& e == RSocketError::OversizedToken
                },
            },
    {
        if bytes_len(&token) <= MAX_TOKEN_LEN {
            Ok(self.set_token(token))
        } else {
            Err(RSocketError::OversizedToken)
        }
    }

    pub fn set_last_received_server_position(self, position: u64) -> (builder: ResumeBuilder)
        ensures
            builder@ == (ResumeBuilderView {
                resume: ResumeView { last_received_server_position: position, ..self@.resume },
                ..self@
            }),
    {
        let mut builder = self;
        proof {
            use_type_invariant(&builder.inner);
        }
        builder.inner.last_received_server_position = position;
        builder
    }

    pub fn set_first_available_client_position(self, position: u64) -> (builder: ResumeBuilder)
        ensures
            builder@ == (ResumeBuilderView {
                resume: ResumeView { first_available_client_position: position, ..self@.resume },
                ..self@
            }),
    {
        let mut builder = self;
        proof {
            use_type_invariant(&builder.inner);
        }
        builder.inner.first_available_client_position = position;
        builder
    }

    /// Seals the builder into a frame whose body is what was collected.
    pub fn build(self) -> (frame: Frame)
        ensures
            frame@.stream_id == self@.stream_id,
            frame@.flag == self@.flag,
            frame@.body matches Body::Resume(resume) && resume@ == self@.resume,
    {
        Frame::new(self.stream_id, Body::Resume(self.inner), self.flag)
    }
}

impl Writeable for Resume {
    open spec fn wire(&self) -> Seq<u8> {
        self@.encoding()
    }

    /// Appends the version, the token length, the token if there is one,
    /// and the two positions.
    fn write_to(&self, bf: &mut BytesMut) {
        proof {
            use_type_invariant(self);
            lemma_encoding_len(self@);
        }
        self.version.write_to(bf);
        match &self.token {
            Some(b) => {
                put_u16_be(bf, bytes_len(b) as u16);
                put(bf, b);
            },
            None => {
                put_u16_be(bf, 0);
            },
        }
        put_u64_be(bf, self.last_received_server_position);
        put_u64_be(bf, self.first_available_client_position);
    }

    /// The fixed part and the token together.
    fn len(&self) -> (n: u32)
        ensures
            n == FIXED_LEN + self@.token_bytes().len(),
    {
        proof {
            use_type_invariant(self);
            lemma_encoding_len(self@);
        }
        let mut size: u32 = FIXED_LEN;
        if let Some(t) = &self.token {
            size = size + bytes_len(t) as u32;
        }
        size
    }
}

} // verus!
