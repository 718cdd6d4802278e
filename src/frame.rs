//! Request and response frames, their byte layout on the wire, and the
//! incremental codecs that turn one into the other.
//!
//! A request frame is `cmd_len: u16`, `cmd` (UTF-8), `args_len: u16`, `args`,
//! lengths big-endian. A response frame starts with a discriminant byte:
//! `0` is followed by `len: u16` and `len` payload bytes; `1`, `2` and `3`
//! are the error kinds and stand alone.

use bytes::{Bytes, BytesMut};
use vstd::prelude::*;
use vstd::utf8::{decode_utf8, encode_utf8, valid_utf8};

use crate::buffer::{
    be16, buf_advance, buf_bytes, buf_extend, buf_freeze, buf_put_u16, buf_put_u8, buf_slice,
    buf_split_to, frozen_bytes, frozen_slice,
};

verus! {

broadcast use vstd::utf8::group_utf8_lib;

/// The largest length that a 16-bit length prefix can carry.
pub const MAX_FIELD_LEN: usize = 65535;

/// The error that a server reports in place of a response payload.
#[derive(Debug, Clone, Copy, PartialEq, Eq, Structural)]
pub enum ResponseErrorKind {
    MethodNotFound,
    InvalidRequest,
    Timeout,
}

impl ResponseErrorKind {
    /// The discriminant byte of this error on the wire.
    pub open spec fn spec_code(self) -> u8 {
        match self {
            ResponseErrorKind::MethodNotFound => 1,
            ResponseErrorKind::InvalidRequest => 2,
            ResponseErrorKind::Timeout => 3,
        }
    }

    /// The error kind that a discriminant byte stands for, if any.
    pub open spec fn spec_from_code(b: u8) -> Option<ResponseErrorKind> {
        if b == 1 {
            Some(ResponseErrorKind::MethodNotFound)
        } else if b == 2 {
            Some(ResponseErrorKind::InvalidRequest)
        } else if b == 3 {
            Some(ResponseErrorKind::Timeout)
        } else {
            None
        }
    }

    pub fn code(&self) -> (r: u8)
        ensures
            r == self.spec_code(),
    {
        match self {
            ResponseErrorKind::MethodNotFound => 1,
            ResponseErrorKind::InvalidRequest => 2,
            ResponseErrorKind::Timeout => 3,
        }
    }

    pub fn from_code(b: u8) -> (r: Option<ResponseErrorKind>)
        ensures
            r == Self::spec_from_code(b),
    {
        if b == 1 {
            Some(ResponseErrorKind::MethodNotFound)
        } else if b == 2 {
            Some(ResponseErrorKind::InvalidRequest)
        } else if b == 3 {
            Some(ResponseErrorKind::Timeout)
        } else {
            None
        }
    }
}

/// Why a frame could not be decoded or encoded.
#[derive(Debug, Clone, Copy, PartialEq, Eq, Structural)]
pub enum FrameError {
    /// The command of a request frame is not valid UTF-8.
    InvalidCommand,
    /// A response frame starts with a byte that names no frame kind.
    UnknownDiscriminant(u8),
    /// A field is longer than a 16-bit length prefix can carry.
    TooLong,
    /// The output buffer cannot grow by a whole frame.
    BufferFull,
}

/// Whether `extra` more bytes fit in a buffer that holds `len` bytes.
pub open spec fn buffer_has_room(len: int, extra: int) -> bool {
    len + extra <= isize::MAX
}

/// What a request frame holds: the service's name and the opaque payload.
pub struct RequestFrameView {
    pub command: Seq<char>,
    pub arguments: Seq<u8>,
}

/// What a response frame holds.
pub enum ResponseFrameView {
    Payload(Seq<u8>),
    Error(ResponseErrorKind),
}

/// The outcome of decoding from the front of a buffer.
pub enum Decoding<T> {
    /// More bytes are needed; nothing is consumed.
    Incomplete,
    /// The bytes can never start a valid frame.
    Malformed,
    /// A frame, and the number of bytes it takes up.
    Complete(T, int),
}

#[derive(Debug, PartialEq, Clone)]
pub struct RequestFrame {
    pub command: String,
    pub arguments: Bytes,
}

impl View for RequestFrame {
    type V = RequestFrameView;

    open spec fn view(&self) -> RequestFrameView {
        RequestFrameView { command: self.command@, arguments: frozen_bytes(self.arguments) }
    }
}

impl RequestFrame {
    pub fn new(cmd: String, payload: Bytes) -> (r: Self)
        ensures
            r.command == cmd,
            r.arguments == payload,
    {
        RequestFrame { command: cmd, arguments: payload }
    }
}

#[derive(Debug, PartialEq, Clone)]
pub enum ResponseFrame {
    Payload(Bytes),
    Error(ResponseErrorKind),
}

impl View for ResponseFrame {
    type V = ResponseFrameView;

    open spec fn view(&self) -> ResponseFrameView {
        match self {
            ResponseFrame::Payload(b) => ResponseFrameView::Payload(frozen_bytes(*b)),
            ResponseFrame::Error(k) => ResponseFrameView::Error(*k),
        }
    }
}

impl ResponseFrame {
    pub fn with_payload(response: Bytes) -> (r: Self)
        ensures
            r == ResponseFrame::Payload(response),
    {
        ResponseFrame::Payload(response)
    }
}

/// The 16-bit big-endian number at positions `i` and `i + 1`.
pub open spec fn be16_at(b: Seq<u8>, i: int) -> int {
    (b[i] as int) * 256 + (b[i + 1] as int)
}

/// Whether both lengths of a request frame fit their 16-bit prefixes.
pub open spec fn request_representable(f: RequestFrameView) -> bool {
    encode_utf8(f.command).len() <= MAX_FIELD_LEN && f.arguments.len() <= MAX_FIELD_LEN
}

/// The bytes of a request frame on the wire.
pub open spec fn request_wire(f: RequestFrameView) -> Seq<u8> {
    let c = encode_utf8(f.command);
    be16(c.len()) + c + be16(f.arguments.len()) + f.arguments
}

/// Decoding a request frame from the front of `b`.
pub open spec fn decode_request(b: Seq<u8>) -> Decoding<RequestFrameView> {
    if b.len() < 4 {
        Decoding::Incomplete
    } else {
        let n = be16_at(b, 0);
        if b.len() < n + 4 {
            Decoding::Incomplete
        } else if !valid_utf8(b.subrange(2, n + 2)) {
            Decoding::Malformed
        } else {
            let m = be16_at(b, n + 2);
            if b.len() < n + m + 4 {
                Decoding::Incomplete
            } else {
                Decoding::Complete(
                    RequestFrameView {
                        command: decode_utf8(b.subrange(2, n + 2)),
                        arguments: b.subrange(n + 4, n + m + 4),
                    },
                    n + m + 4,
                )
            }
        }
    }
}

/// Relies on `String::from_utf8`: it succeeds exactly on valid UTF-8, and the
/// string then holds the characters that the bytes encode.
#[verifier::external_body]
fn string_from_utf8(v: Vec<u8>) -> (r: Option<String>)
    ensures
        r is Some <==> valid_utf8(v@),
        r matches Some(s) ==> s@ == decode_utf8(v@),
{
    String::from_utf8(v).ok()
}

/// Codec for [`RequestFrame`].
pub struct RequestFrameCodec;

impl RequestFrameCodec {
    /// Takes one request frame from the front of `src`, or reports that more
    /// bytes are needed (leaving `src` as it was), or that the command is not
    /// UTF-8 (leaving `src` as it was).
    pub fn decode(&mut self, src: &mut BytesMut) -> (r: Result<Option<RequestFrame>, FrameError>)
        ensures
            match decode_request(buf_bytes(*old(src))) {
                Decoding::Incomplete => {
                    &&& r == Ok::<Option<RequestFrame>, FrameError>(None)
                    &&& buf_bytes(*final(src)) == buf_bytes(*old(src))
                },
                Decoding::Malformed => {
                    &&& r == Err::<Option<RequestFrame>, FrameError>(FrameError::InvalidCommand)
                    &&& buf_bytes(*final(src)) == buf_bytes(*old(src))
                },
                Decoding::Complete(f, k) => {
                    &&& r matches Ok(Some(frame))
                    &&& frame@ == f
                    &&& buf_bytes(*final(src)) == buf_bytes(*old(src)).skip(k)
                },
            },
    {
        let s = buf_slice(src);
        let len = s.len();
        if len < 4 {
            return Ok(None);
        }
        let n = (s[0] as usize) * 256 + (s[1] as usize);
        if len - 4 < n {
            return Ok(None);
        }
        let mut cmd_bytes: Vec<u8> = Vec::with_capacity(n);
        let mut i: usize = 0;
        while i < n
            invariant
                i <= n,
                n + 4 <= len,
                len == s@.len(),
                cmd_bytes@ == s@.subrange(2, i + 2),
            decreases n - i,
        {
            cmd_bytes.push(s[i + 2]);
            i = i + 1;
            assert(cmd_bytes@ =~= s@.subrange(2, i + 2));
        }
        let command = match string_from_utf8(cmd_bytes) {
            Some(c) => c,
            None => {
                return Err(FrameError::InvalidCommand);
            },
        };
        let m = (s[n + 2] as usize) * 256 + (s[n + 3] as usize);
        if len - 4 - n < m {
            return Ok(None);
        }
        buf_advance(src, n + 4);
        let args = buf_split_to(src, m);
        let arguments = buf_freeze(args);
        let frame = RequestFrame { command, arguments };
        proof {
            let b = buf_bytes(*old(src));
            assert(frame@.arguments =~= b.subrange(n + 4, n + m + 4));
            assert(buf_bytes(*src) =~= b.skip((n + m + 4) as int));
        }
        Ok(Some(frame))
    }

    /// Appends the wire form of `frame` to `dst`. It fails with `TooLong`
    /// when a length does not fit its prefix, and with `BufferFull` when
    /// `dst` cannot grow by the whole frame; `dst` is then left as it was.
    pub fn encode(&mut self, frame: RequestFrame, dst: &mut BytesMut) -> (r: Result<(), FrameError>)
        ensures
            ({
                let room = buffer_has_room(
                    buf_bytes(*old(dst)).len() as int,
                    request_wire(frame@).len() as int,
                );
                &&& request_representable(frame@) && room ==> {
                    &&& r is Ok
                    &&& buf_bytes(*final(dst)) == buf_bytes(*old(dst)) + request_wire(frame@)
                }
                &&& !request_representable(frame@) ==> r == Err::<(), FrameError>(
                    FrameError::TooLong,
                )
                &&& request_representable(frame@) && !room ==> r == Err::<(), FrameError>(
                    FrameError::BufferFull,
                )
                &&& r is Err ==> buf_bytes(*final(dst)) == buf_bytes(*old(dst))
            }),
    {
        let cmd = frame.command.as_str().as_bytes();
        let args = frozen_slice(&frame.arguments);
        if cmd.len() > MAX_FIELD_LEN || args.len() > MAX_FIELD_LEN {
            return Err(FrameError::TooLong);
        }
        if buf_slice(dst).len() > (isize::MAX as usize) - (cmd.len() + args.len() + 4) {
            return Err(FrameError::BufferFull);
        }
        buf_put_u16(dst, cmd.len() as u16);
        buf_extend(dst, cmd);
        buf_put_u16(dst, args.len() as u16);
        buf_extend(dst, args);
        proof {
            let w = request_wire(frame@);
            assert(buf_bytes(*dst) =~= buf_bytes(*old(dst)) + w);
        }
        Ok(())
    }
}

/// Whether the payload of a response frame fits its 16-bit prefix.
pub open spec fn response_representable(f: ResponseFrameView) -> bool {
    match f {
        ResponseFrameView::Payload(p) => p.len() <= MAX_FIELD_LEN,
        ResponseFrameView::Error(_) => true,
    }
}

/// The bytes of a response frame on the wire.
pub open spec fn response_wire(f: ResponseFrameView) -> Seq<u8> {
    match f {
        ResponseFrameView::Payload(p) => seq![0u8] + be16(p.len()) + p,
        ResponseFrameView::Error(k) => seq![k.spec_code()],
    }
}

/// Decoding a response frame from the front of `b`.
pub open spec fn decode_response(b: Seq<u8>) -> Decoding<ResponseFrameView> {
    if b.len() < 1 {
        Decoding::Incomplete
    } else if b[0] == 0 {
        if b.len() < 3 {
            Decoding::Incomplete
        } else {
            let n = be16_at(b, 1);
            if b.len() < n + 3 {
                Decoding::Incomplete
            } else {
                Decoding::Complete(ResponseFrameView::Payload(b.subrange(3, n + 3)), n + 3)
            }
        }
    } else {
        match ResponseErrorKind::spec_from_code(b[0]) {
            Some(k) => Decoding::Complete(ResponseFrameView::Error(k), 1),
            None => Decoding::Malformed,
        }
    }
}

/// Codec for [`ResponseFrame`].
pub struct ResponseFrameCodec;

impl ResponseFrameCodec {
    /// Takes one response frame from the front of `src`, or reports that more
    /// bytes are needed, or that the first byte names no frame kind; in both
    /// of those cases `src` is left as it was.
    pub fn decode(&mut self, src: &mut BytesMut) -> (r: Result<Option<ResponseFrame>, FrameError>)
        ensures
            match decode_response(buf_bytes(*old(src))) {
                Decoding::Incomplete => {
                    &&& r == Ok::<Option<ResponseFrame>, FrameError>(None)
                    &&& buf_bytes(*final(src)) == buf_bytes(*old(src))
                },
                Decoding::Malformed => {
                    &&& r == Err::<Option<ResponseFrame>, FrameError>(
                        FrameError::UnknownDiscriminant(buf_bytes(*old(src))[0]),
                    )
                    &&& buf_bytes(*final(src)) == buf_bytes(*old(src))
                },
                Decoding::Complete(f, k) => {
                    &&& r matches Ok(Some(frame))
                    &&& frame@ == f
                    &&& buf_bytes(*final(src)) == buf_bytes(*old(src)).skip(k)
                },
            },
    {
        let s = buf_slice(src);
        let len = s.len();
        if len < 1 {
            return Ok(None);
        }
        let tag = s[0];
        if tag == 0 {
            if len < 3 {
                return Ok(None);
            }
            let n = (s[1] as usize) * 256 + (s[2] as usize);
            if len - 3 < n {
                return Ok(None);
            }
            buf_advance(src, 3);
            let payload = buf_split_to(src, n);
            let frame = ResponseFrame::Payload(buf_freeze(payload));
            proof {
                let b = buf_bytes(*old(src));
                assert(frozen_bytes(frame->Payload_0) =~= b.subrange(3, n + 3));
                assert(buf_bytes(*src) =~= b.skip(n + 3));
            }
            Ok(Some(frame))
        } else {
            match ResponseErrorKind::from_code(tag) {
                Some(kind) => {
                    buf_advance(src, 1);
                    Ok(Some(ResponseFrame::Error(kind)))
                },
                None => Err(FrameError::UnknownDiscriminant(tag)),
            }
        }
    }

    /// Appends the wire form of `frame` to `dst`. It fails with `TooLong`
    /// when the payload does not fit its prefix, and with `BufferFull` when
    /// `dst` cannot grow by the whole frame; `dst` is then left as it was.
    pub fn encode(&mut self, frame: ResponseFrame, dst: &mut BytesMut) -> (r: Result<(), FrameError>)
        ensures
            ({
                let room = buffer_has_room(
                    buf_bytes(*old(dst)).len() as int,
                    response_wire(frame@).len() as int,
                );
                &&& response_representable(frame@) && room ==> {
                    &&& r is Ok
                    &&& buf_bytes(*final(dst)) == buf_bytes(*old(dst)) + response_wire(frame@)
                }
                &&& !response_representable(frame@) ==> r == Err::<(), FrameError>(
                    FrameError::TooLong,
                )
                &&& response_representable(frame@) && !room ==> r == Err::<(), FrameError>(
                    FrameError::BufferFull,
                )
                &&& r is Err ==> buf_bytes(*final(dst)) == buf_bytes(*old(dst))
            }),
    {
        match frame {
            ResponseFrame::Error(kind) => {
                if buf_slice(dst).len() > (isize::MAX as usize) - 1 {
                    return Err(FrameError::BufferFull);
                }
                buf_put_u8(dst, kind.code());
                proof {
                    assert(buf_bytes(*dst) =~= buf_bytes(*old(dst)) + response_wire(frame@));
                }
            },
            ResponseFrame::Payload(payload) => {
                let p = frozen_slice(&payload);
                if p.len() > MAX_FIELD_LEN {
                    return Err(FrameError::TooLong);
                }
                if buf_slice(dst).len() > (isize::MAX as usize) - (p.len() + 3) {
                    return Err(FrameError::BufferFull);
                }
                buf_put_u8(dst, 0);
                buf_put_u16(dst, p.len() as u16);
                buf_extend(dst, p);
                proof {
                    assert(buf_bytes(*dst) =~= buf_bytes(*old(dst)) + response_wire(frame@));
                }
            },
        }
        Ok(())
    }
}

proof fn lemma_be16_value(n: nat)
    requires
        n <= MAX_FIELD_LEN,
    ensures
        be16(n).len() == 2,
        (be16(n)[0] as int) * 256 + (be16(n)[1] as int) == n,
{
    vstd::arithmetic::div_mod::lemma_fundamental_div_mod(n as int, 256);
    assert(n / 256 < 256) by {
        vstd::arithmetic::div_mod::lemma_div_by_multiple_is_strongly_ordered(
            n as int,
            65536,
            256,
            256,
        );
    }
}

/// Decoding the wire form of a representable request frame, followed by any
/// further bytes, yields that frame and consumes exactly its wire form, so
/// that only the further bytes stay in the buffer.
pub proof fn lemma_request_round_trip(f: RequestFrameView, rest: Seq<u8>)
    requires
        request_representable(f),
    ensures
        decode_request(request_wire(f) + rest) == Decoding::Complete(f, request_wire(f).len() as int),
        (request_wire(f) + rest).skip(request_wire(f).len() as int) == rest,
{
    let c = encode_utf8(f.command);
    let a = f.arguments;
    let w = request_wire(f);
    let b = w + rest;
    let n = c.len() as int;
    lemma_be16_value(c.len());
    lemma_be16_value(a.len());
    assert(be16_at(b, 0) == n);
    assert(b.subrange(2, n + 2) =~= c);
    assert(be16_at(b, n + 2) == a.len());
    assert(b.subrange(n + 4, n + a.len() as int + 4) =~= a);
    assert(b.skip(w.len() as int) =~= rest);
}

/// Every proper prefix of the wire form of a representable request frame
/// decodes as incomplete; once the remaining bytes follow it, the frame
/// decodes whole.
pub proof fn lemma_request_incremental(f: RequestFrameView, i: int)
    requires
        request_representable(f),
        0 <= i < request_wire(f).len(),
    ensures
        decode_request(request_wire(f).take(i)) == Decoding::<RequestFrameView>::Incomplete,
        decode_request(request_wire(f).take(i) + request_wire(f).skip(i)) == Decoding::Complete(
            f,
            request_wire(f).len() as int,
        ),
{
    let c = encode_utf8(f.command);
    let a = f.arguments;
    let w = request_wire(f);
    let p = w.take(i);
    let n = c.len() as int;
    lemma_be16_value(c.len());
    lemma_be16_value(a.len());
    if i >= 4 {
        assert(be16_at(p, 0) == n);
        if i >= n + 4 {
            assert(p.subrange(2, n + 2) =~= c);
            assert(be16_at(p, n + 2) == a.len());
        }
    }
    lemma_request_round_trip(f, Seq::empty());
    assert(w + Seq::<u8>::empty() =~= w);
    assert(p + w.skip(i) =~= w);
}

/// Decoding the wire form of a representable response frame, followed by any
/// further bytes, yields that frame and consumes exactly its wire form.
pub proof fn lemma_response_round_trip(f: ResponseFrameView, rest: Seq<u8>)
    requires
        response_representable(f),
    ensures
        decode_response(response_wire(f) + rest) == Decoding::Complete(f, response_wire(f).len() as int),
        (response_wire(f) + rest).skip(response_wire(f).len() as int) == rest,
{
    let w = response_wire(f);
    let b = w + rest;
    match f {
        ResponseFrameView::Payload(p) => {
            lemma_be16_value(p.len());
            assert(be16_at(b, 1) == p.len());
            assert(b.subrange(3, p.len() as int + 3) =~= p);
        },
        ResponseFrameView::Error(k) => {},
    }
    assert(b.skip(w.len() as int) =~= rest);
}

/// Every proper prefix of the wire form of a representable response frame
/// decodes as incomplete; once the remaining bytes follow it, the frame
/// decodes whole.
pub proof fn lemma_response_incremental(f: ResponseFrameView, i: int)
    requires
        response_representable(f),
        0 <= i < response_wire(f).len(),
    ensures
        decode_response(response_wire(f).take(i)) == Decoding::<ResponseFrameView>::Incomplete,
        decode_response(response_wire(f).take(i) + response_wire(f).skip(i)) == Decoding::Complete(
            f,
            response_wire(f).len() as int,
        ),
{
    let w = response_wire(f);
    let p = w.take(i);
    if let ResponseFrameView::Payload(q) = f {
        lemma_be16_value(q.len());
        if i >= 3 {
            assert(be16_at(p, 1) == q.len());
        }
    }
    lemma_response_round_trip(f, Seq::empty());
    assert(w + Seq::<u8>::empty() =~= w);
    assert(p + w.skip(i) =~= w);
}

} // verus!
