//! The byte layout of a resumption frame body.
//!
//! | offset  | size | field                             |
//! |---------|------|-----------------------------------|
//! | 0       | 2    | major version                     |
//! | 2       | 2    | minor version                     |
//! | 4       | 2    | token length `n`, 0 without token |
//! | 6       | `n`  | token                             |
//! | 6 + `n` | 8    | last received server position     |
//! | 14 + `n`| 8    | first available client position   |
//!
//! All integers are big-endian. The token length is always written, as zero
//! when the frame has no token, so that every body written can be read back
//! and its length is the fixed part plus the token.

use crate::big_endian::{
    be_u16, be_u64, lemma_u16_be_bytes_len, lemma_u16_read_then_written, lemma_u16_reads_two,
    lemma_u16_written_then_read, lemma_u64_be_bytes_len, lemma_u64_read_then_written,
    lemma_u64_written_then_read, lemma_zero_size_field, u16_be_bytes, u64_be_bytes,
};
use crate::frame::version::Version;
use vstd::prelude::*;

verus! {

/// The longest token that the 16-bit length field can announce.
pub const MAX_TOKEN_LEN: usize = 0xffff;

/// The length of a body without a token: version, token length and the two
/// positions.
pub const FIXED_LEN: u32 = 22;

/// The four fields of a resumption frame body.
pub struct ResumeView {
    pub version: Version,
    pub token: Option<Seq<u8>>,
    pub last_received_server_position: u64,
    pub first_available_client_position: u64,
}

impl ResumeView {
    /// A token, when there is one, fits the length field.
    pub open spec fn wf(self) -> bool {
        self.token matches Some(t) ==> t.len() <= MAX_TOKEN_LEN
    }

    /// The token's bytes; none when there is no token.
    pub open spec fn token_bytes(self) -> Seq<u8> {
        match self.token {
            Some(t) => t,
            None => Seq::empty(),
        }
    }

    /// The value a builder starts from: zero version, no token, both
    /// positions zero.
    pub open spec fn zero() -> ResumeView {
        ResumeView {
            version: Version { major: 0, minor: 0 },
            token: None,
            last_received_server_position: 0,
            first_available_client_position: 0,
        }
    }

    /// The body as it is written.
    pub open spec fn encoding(self) -> Seq<u8> {
        u16_be_bytes(self.version.major) + u16_be_bytes(self.version.minor) + u16_be_bytes(
            self.token_bytes().len() as u16,
        ) + self.token_bytes() + u64_be_bytes(self.last_received_server_position) + u64_be_bytes(
            self.first_available_client_position,
        )
    }
}

/// What reading one body from the front of `s` gives: the fields and the
/// number of bytes they took, or nothing when `s` ends before the body does.
pub open spec fn parse(s: Seq<u8>) -> Option<(ResumeView, nat)> {
    if s.len() < 6 {
        None
    } else {
        let n = be_u16(s.skip(4)) as int;
        if s.len() < FIXED_LEN + n {
            None
        } else {
            Some(
                (
                    ResumeView {
                        version: Version { major: be_u16(s), minor: be_u16(s.skip(2)) },
                        token: if n > 0 {
                            Some(s.subrange(6, 6 + n))
                        } else {
                            None
                        },
                        last_received_server_position: be_u64(s.skip(6 + n)),
                        first_available_client_position: be_u64(s.skip(14 + n)),
                    },
                    (FIXED_LEN + n) as nat,
                ),
            )
        }
    }
}

/// A body is as long as its fixed part and its token together.
pub proof fn lemma_encoding_len(v: ResumeView)
    ensures
        v.encoding().len() == FIXED_LEN + v.token_bytes().len(),
{
    lemma_u16_be_bytes_len(v.version.major);
    lemma_u16_be_bytes_len(v.version.minor);
    lemma_u16_be_bytes_len(v.token_bytes().len() as u16);
    lemma_u64_be_bytes_len(v.last_received_server_position);
    lemma_u64_be_bytes_len(v.first_available_client_position);
}

/// Where a field stands in a sequence, it can be taken out again.
proof fn lemma_field_at(s: Seq<u8>, before: Seq<u8>, field: Seq<u8>, after: Seq<u8>)
    requires
        s == before + field + after,
    ensures
        s.skip(before.len() as int) == field + after,
        s.subrange(before.len() as int, (before.len() + field.len()) as int) == field,
{
    assert(s.skip(before.len() as int) =~= field + after);
    assert(s.subrange(before.len() as int, (before.len() + field.len()) as int) =~= field);
}

/// Reading what was written gives the same fields back and takes exactly
/// the bytes written, whatever follows them in the buffer.
///
/// A body holds its token length and nothing that tells an empty token from
/// none, so an empty token is read back as no token: the law is stated for
/// every other valid body.
pub proof fn lemma_written_then_parsed(v: ResumeView, rest: Seq<u8>)
    requires
        v.wf(),
        v.token matches Some(t) ==> t.len() > 0,
    ensures
        parse(v.encoding() + rest) == Some((v, v.encoding().len())),
{
    let major = u16_be_bytes(v.version.major);
    let minor = u16_be_bytes(v.version.minor);
    let token = v.token_bytes();
    let n = token.len() as int;
    let size = u16_be_bytes(n as u16);
    let last = u64_be_bytes(v.last_received_server_position);
    let first = u64_be_bytes(v.first_available_client_position);
    let s = v.encoding() + rest;
    lemma_encoding_len(v);

    let after_major = minor + size + token + last + first + rest;
    lemma_u16_written_then_read(v.version.major, after_major);
    assert(s =~= major + after_major);

    let after_minor = size + token + last + first + rest;
    lemma_u16_written_then_read(v.version.minor, after_minor);
    assert(s =~= major + minor + after_minor);
    lemma_field_at(s, major, minor, after_minor);

    let after_size = token + last + first + rest;
    lemma_u16_written_then_read(n as u16, after_size);
    assert(s =~= (major + minor) + size + after_size);
    lemma_field_at(s, major + minor, size, after_size);

    let after_token = last + first + rest;
    assert(s =~= (major + minor + size) + token + after_token);
    lemma_field_at(s, major + minor + size, token, after_token);

    let after_last = first + rest;
    lemma_u64_written_then_read(v.last_received_server_position, after_last);
    assert(s =~= (major + minor + size + token) + last + after_last);
    lemma_field_at(s, major + minor + size + token, last, after_last);

    lemma_u64_written_then_read(v.first_available_client_position, rest);
    assert(s =~= (major + minor + size + token + last) + first + rest);
    lemma_field_at(s, major + minor + size + token + last, first, rest);
}

/// An empty token is written like no token, and is read back as none.
pub proof fn lemma_empty_token_is_read_as_none(v: ResumeView, rest: Seq<u8>)
    requires
        v.token matches Some(t) && t.len() == 0,
    ensures
        parse(v.encoding() + rest) == Some(
            (ResumeView { token: None, ..v }, FIXED_LEN as nat),
        ),
{
    let w = ResumeView { token: None, ..v };
    assert(v.token_bytes() =~= w.token_bytes());
    lemma_written_then_parsed(w, rest);
    lemma_encoding_len(w);
}

/// Whatever is read is a valid body with a token that is not empty, and
/// writing it gives back exactly the bytes that were read.
pub proof fn lemma_parsed_then_written(s: Seq<u8>)
    requires
        parse(s) is Some,
    ensures
        ({
            let (v, n) = parse(s)->Some_0;
            &&& v.wf()
            &&& v.token matches Some(t) ==> t.len() > 0
            &&& n <= s.len()
            &&& v.encoding() == s.take(n as int)
        }),
{
    let (v, n) = parse(s)->Some_0;
    let k = be_u16(s.skip(4)) as int;
    lemma_u16_read_then_written(s);
    lemma_u16_read_then_written(s.skip(2));
    lemma_u16_read_then_written(s.skip(4));
    lemma_u64_read_then_written(s.skip(6 + k));
    lemma_u64_read_then_written(s.skip(14 + k));
    lemma_encoding_len(v);
    assert(v.token_bytes() =~= s.subrange(6, 6 + k));
    assert(v.encoding() =~= s.take(2) + s.skip(2).take(2) + s.skip(4).take(2) + s.subrange(
        6,
        6 + k,
    ) + s.skip(6 + k).take(8) + s.skip(14 + k).take(8));
    assert(v.encoding() =~= s.take(n as int));
}

/// A buffer cut short anywhere inside a body is rejected: no prefix of a
/// written body is itself read as a body.
pub proof fn lemma_truncated_is_rejected(v: ResumeView, k: int)
    requires
        v.wf(),
        0 <= k < v.encoding().len(),
    ensures
        parse(v.encoding().take(k)) is None,
{
    let major = u16_be_bytes(v.version.major);
    let minor = u16_be_bytes(v.version.minor);
    let token = v.token_bytes();
    let n = token.len() as int;
    let size = u16_be_bytes(n as u16);
    let s = v.encoding();
    lemma_encoding_len(v);
    if k >= 6 {
        let tail = token + u64_be_bytes(v.last_received_server_position) + u64_be_bytes(
            v.first_available_client_position,
        );
        lemma_u16_be_bytes_len(v.version.major);
        lemma_u16_be_bytes_len(v.version.minor);
        lemma_u16_written_then_read(n as u16, tail);
        assert(s =~= (major + minor) + size + tail);
        lemma_field_at(s, major + minor, size, tail);
        assert(s.take(k).skip(4).take(2) =~= s.skip(4).take(2));
        lemma_u16_reads_two(s.take(k).skip(4), s.skip(4));
    }
}

/// A buffer that ends before the body at its front does is rejected.
pub proof fn lemma_prefix_is_rejected(s: Seq<u8>, k: int)
    requires
        parse(s) is Some,
        0 <= k < parse(s)->Some_0.1,
    ensures
        parse(s.take(k)) is None,
{
    if k >= 6 {
        assert(s.take(k).skip(4).take(2) =~= s.skip(4).take(2));
        lemma_u16_reads_two(s.take(k).skip(4), s.skip(4));
    }
}

/// A body without a token is the fixed part alone, its token length is
/// written as zero, and it is read back as a body without a token.
pub proof fn lemma_absent_token(v: ResumeView, rest: Seq<u8>)
    requires
        v.token is None,
    ensures
        v.encoding().len() == FIXED_LEN,
        v.encoding().subrange(4, 6) == seq![0u8, 0u8],
        parse(v.encoding() + rest) matches Some((w, n)) && w.token is None && n == FIXED_LEN,
{
    lemma_written_then_parsed(v, rest);
    lemma_encoding_len(v);
    lemma_zero_size_field();
    let major = u16_be_bytes(v.version.major);
    let minor = u16_be_bytes(v.version.minor);
    let tail = v.token_bytes() + u64_be_bytes(v.last_received_server_position) + u64_be_bytes(
        v.first_available_client_position,
    );
    lemma_u16_be_bytes_len(v.version.major);
    lemma_u16_be_bytes_len(v.version.minor);
    assert(v.encoding() =~= (major + minor) + u16_be_bytes(0) + tail);
    lemma_field_at(v.encoding(), major + minor, u16_be_bytes(0), tail);
}

} // verus!
