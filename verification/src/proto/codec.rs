//! Length-prefixed framing over a byte stream.

use vstd::prelude::*;
use bytes::{Buf, BytesMut};
use crate::proto::error::ProtocolError;
use crate::proto::frame::{
    be32, be32_value, frame_unwire, frame_wire, lemma_unwire_of_wire, Frame, FrameView,
    MAX_PAYLOAD_LEN,
};

verus! {

/// Largest frame body that a codec accepts unless told otherwise: 16 MiB.
pub const MAX_FRAME_SIZE: usize = 16 * 1024 * 1024;

/// Capacity that a codec's read buffer starts with.
pub const READ_BUFFER_CAPACITY: usize = 8192;

/// `bytes::BytesMut`, a growable byte buffer.
#[verifier::external_type_specification]
#[verifier::external_body]
pub struct ExBytesMut(BytesMut);

/// The bytes that a buffer holds, first to last.
pub uninterp spec fn buffered(buf: BytesMut) -> Seq<u8>;

/// `BytesMut::with_capacity` returns a buffer that holds no byte.
pub assume_specification[ BytesMut::with_capacity ](capacity: usize) -> (buf: BytesMut)
    requires
        capacity <= isize::MAX,
    ensures
        buffered(buf) == Seq::<u8>::empty(),
;

/// `BytesMut::len` returns the number of bytes held.
pub assume_specification[ BytesMut::len ](buf: &BytesMut) -> (n: usize)
    ensures
        n == buffered(*buf).len(),
;

/// `BytesMut::extend_from_slice` appends the slice to the bytes held.
pub assume_specification[ BytesMut::extend_from_slice ](buf: &mut BytesMut, extend: &[u8])
    requires
        buffered(*old(buf)).len() + extend@.len() <= isize::MAX,
    ensures
        buffered(*final(buf)) == buffered(*old(buf)) + extend@,
;

/// `BytesMut::split_to` hands out the first `at` bytes and keeps the rest.
pub assume_specification[ BytesMut::split_to ](buf: &mut BytesMut, at: usize) -> (head: BytesMut)
    requires
        at <= buffered(*old(buf)).len(),
    ensures
        buffered(head) == buffered(*old(buf)).take(at as int),
        buffered(*final(buf)) == buffered(*old(buf)).skip(at as int),
;

/// `BytesMut::clear` drops every byte held.
pub assume_specification[ BytesMut::clear ](buf: &mut BytesMut)
    ensures
        buffered(*final(buf)) == Seq::<u8>::empty(),
;

/// `Buf::advance` on a `BytesMut` drops its first `cnt` bytes.
pub assume_specification[ <BytesMut as Buf>::advance ](buf: &mut BytesMut, cnt: usize)
    requires
        cnt <= buffered(*old(buf)).len(),
    ensures
        buffered(*final(buf)) == buffered(*old(buf)).skip(cnt as int),
;

/// A `BytesMut` dereferences to the slice of the bytes that it holds;
/// indexing that slice at `i` gives the byte at position `i`.
#[verifier::external_body]
fn byte_at(buf: &BytesMut, i: usize) -> (b: u8)
    requires
        i < buffered(*buf).len(),
    ensures
        b == buffered(*buf)[i as int],
{
    buf[i]
}

/// A `BytesMut` dereferences to the slice of the bytes that it holds;
/// `to_vec` on that slice copies them.
#[verifier::external_body]
fn bytes_of(buf: &BytesMut) -> (v: Vec<u8>)
    ensures
        v@ == buffered(*buf),
{
    buf.to_vec()
}

/// A whole frame on the wire: the length of the body in four bytes, most
/// significant first, then the body.
pub open spec fn frame_bytes(f: FrameView) -> Seq<u8> {
    be32(frame_wire(f).len()) + frame_wire(f)
}

/// The length that the first four bytes of a buffer announce.
pub open spec fn announced_len(buf: Seq<u8>) -> nat
    recommends
        buf.len() >= 4,
{
    be32_value(buf[0], buf[1], buf[2], buf[3])
}

/// What the front of a buffer decodes to.
pub enum Decoded {
    /// The buffer does not hold a whole frame yet.
    Incomplete,
    /// The announced body is larger than allowed.
    TooLarge { size: nat },
    /// A frame, and the bytes behind it.
    Frame { frame: FrameView, rest: Seq<u8> },
    /// A whole body that is the wire form of no frame, and the bytes behind it.
    Malformed { rest: Seq<u8> },
}

/// Decoding the front of `buf` under the limit `max`.
pub open spec fn decode(buf: Seq<u8>, max: nat) -> Decoded {
    if buf.len() < 4 {
        Decoded::Incomplete
    } else if announced_len(buf) > max {
        Decoded::TooLarge { size: announced_len(buf) }
    } else if buf.len() < 4 + announced_len(buf) {
        Decoded::Incomplete
    } else {
        let body = buf.subrange(4, 4 + announced_len(buf) as int);
        let rest = buf.skip(4 + announced_len(buf) as int);
        match frame_unwire(body) {
            Some(frame) => Decoded::Frame { frame, rest },
            None => Decoded::Malformed { rest },
        }
    }
}

/// A frame that was encoded decodes to itself, every field as it was, and
/// leaves what followed it in the buffer.
pub proof fn lemma_decode_of_encode(f: FrameView, rest: Seq<u8>, max: nat)
    requires
        f.payload.len() <= MAX_PAYLOAD_LEN,
        frame_wire(f).len() <= max,
        frame_wire(f).len() <= 0xffff_ffff,
    ensures
        decode(frame_bytes(f) + rest, max) == (Decoded::Frame { frame: f, rest }),
{
    let body = frame_wire(f);
    let buf = frame_bytes(f) + rest;
    let prefix = be32(body.len());
    crate::proto::frame::lemma_be32_inverse(body.len());
    assert(buf[0] == prefix[0] && buf[1] == prefix[1] && buf[2] == prefix[2] && buf[3]
        == prefix[3]);
    assert(announced_len(buf) == body.len());
    assert(buf.subrange(4, 4 + body.len() as int) =~= body);
    assert(buf.skip(4 + body.len() as int) =~= rest);
    lemma_unwire_of_wire(f);
}

/// Encodes frames and decodes them from buffered input.
pub struct FrameCodec {
    read_buf: BytesMut,
    max_frame_size: usize,
}

impl Default for FrameCodec {
    /// A codec with the default limit of 16 MiB.
    fn default() -> (c: FrameCodec)
        ensures
            c.buffer() == Seq::<u8>::empty(),
            c.limit() == MAX_FRAME_SIZE,
    {
        FrameCodec::new()
    }
}

impl FrameCodec {
    /// The bytes received and not yet decoded.
    pub closed spec fn buffer(&self) -> Seq<u8> {
        buffered(self.read_buf)
    }

    /// The largest frame body that the codec accepts.
    pub closed spec fn limit(&self) -> usize {
        self.max_frame_size
    }

    /// A codec with the default limit of 16 MiB.
    pub fn new() -> (c: FrameCodec)
        ensures
            c.buffer() == Seq::<u8>::empty(),
            c.limit() == MAX_FRAME_SIZE,
    {
        FrameCodec {
            read_buf: BytesMut::with_capacity(READ_BUFFER_CAPACITY),
            max_frame_size: MAX_FRAME_SIZE,
        }
    }

    /// A codec with the limit `max_frame_size`.
    pub fn with_max_frame_size(max_frame_size: usize) -> (c: FrameCodec)
        ensures
            c.buffer() == Seq::<u8>::empty(),
            c.limit() == max_frame_size,
    {
        FrameCodec { read_buf: BytesMut::with_capacity(READ_BUFFER_CAPACITY), max_frame_size }
    }

    /// The largest frame body that the codec accepts.
    pub fn max_frame_size(&self) -> (n: usize)
        ensures
            n == self.limit(),
    {
        self.max_frame_size
    }

    /// The frame on the wire: length prefix and body. A body over the limit,
    /// or over what four bytes can announce, is refused as too large.
    pub fn encode_frame(&self, frame: &Frame) -> (r: Result<Vec<u8>, ProtocolError>)
        ensures
            match r {
                Ok(b) => frame.payload@.len() <= MAX_PAYLOAD_LEN && frame_wire(frame@).len()
                    <= self.limit() && frame_wire(frame@).len() <= 0xffff_ffff && b@
                    == frame_bytes(frame@),
                Err(ProtocolError::FrameTooLarge { size, max }) => frame.payload@.len()
                    <= MAX_PAYLOAD_LEN && size == frame_wire(frame@).len() && max == self.limit()
                    && (size > self.limit() || size > 0xffff_ffff),
                Err(ProtocolError::Serialization(_)) => frame.payload@.len() > MAX_PAYLOAD_LEN,
                Err(_) => false,
            },
    {
        let body = match frame.to_msgpack() {
            Ok(body) => body,
            Err(e) => { return Err(e); },
        };
        if body.len() > self.max_frame_size || body.len() > 0xffff_ffff {
            return Err(ProtocolError::FrameTooLarge { size: body.len(), max: self.max_frame_size });
        }
        let n: u32 = body.len() as u32;
        let mut out: Vec<u8> = Vec::new();
        out.push((n / 0x100_0000) as u8);
        out.push(((n / 0x1_0000) % 0x100) as u8);
        out.push(((n / 0x100) % 0x100) as u8);
        out.push((n % 0x100) as u8);
        out.extend_from_slice(body.as_slice());
        assert(out@ =~= frame_bytes(frame@));
        Ok(out)
    }

    /// Takes bytes that arrived from the peer into the buffer.
    pub fn feed(&mut self, data: &[u8])
        requires
            old(self).buffer().len() + data@.len() <= isize::MAX,
        ensures
            final(self).buffer() == old(self).buffer() + data@,
            final(self).limit() == old(self).limit(),
    {
        self.read_buf.extend_from_slice(data);
    }

    /// Decodes the frame at the front of the buffer, if a whole one is there.
    ///
    /// With fewer than four bytes, or fewer than the announced body needs,
    /// nothing is consumed and `None` is returned. An announced body over the
    /// limit is refused and nothing is consumed. Otherwise prefix and body
    /// are consumed, and the body decodes to a frame or is malformed.
    pub fn try_decode_frame(&mut self) -> (r: Result<Option<Frame>, ProtocolError>)
        ensures
            final(self).limit() == old(self).limit(),
            match decode(old(self).buffer(), old(self).limit() as nat) {
                Decoded::Incomplete => r matches Ok(None) && final(self).buffer()
                    == old(self).buffer(),
                Decoded::TooLarge { size } => r == Err::<Option<Frame>, ProtocolError>(
                    ProtocolError::FrameTooLarge { size: size as usize, max: old(self).limit() },
                ) && final(self).buffer() == old(self).buffer(),
                Decoded::Frame { frame, rest } => r matches Ok(Some(f)) && f@ == frame
                    && final(self).buffer() == rest,
                Decoded::Malformed { rest } => r matches Err(ProtocolError::Serialization(_))
                    && final(self).buffer() == rest,
            },
    {
        let held: usize = self.read_buf.len();
        if held < 4 {
            return Ok(None);
        }
        let b0: u32 = byte_at(&self.read_buf, 0) as u32;
        let b1: u32 = byte_at(&self.read_buf, 1) as u32;
        let b2: u32 = byte_at(&self.read_buf, 2) as u32;
        let b3: u32 = byte_at(&self.read_buf, 3) as u32;
        let announced: u32 = b0 * 0x100_0000 + b1 * 0x1_0000 + b2 * 0x100 + b3;
        let frame_len: usize = announced as usize;
        if frame_len > self.max_frame_size {
            return Err(
                ProtocolError::FrameTooLarge { size: frame_len, max: self.max_frame_size },
            );
        }
        if held - 4 < frame_len {
            return Ok(None);
        }
        let ghost before = self.read_buf;
        self.read_buf.advance(4);
        let body = self.read_buf.split_to(frame_len);
        proof {
            assert(buffered(body) =~= buffered(before).subrange(4, 4 + frame_len));
            assert(buffered(self.read_buf) =~= buffered(before).skip(4 + frame_len));
        }
        let bytes = bytes_of(&body);
        match Frame::from_msgpack(bytes.as_slice()) {
            Ok(f) => Ok(Some(f)),
            Err(e) => Err(e),
        }
    }

    /// What the end of the input means: with an empty buffer the stream ended
    /// between frames; with bytes left a frame was cut short.
    pub fn end_of_input(&self) -> (r: Result<(), ProtocolError>)
        ensures
            self.buffer().len() == 0 ==> r is Ok,
            self.buffer().len() != 0 ==> r matches Err(ProtocolError::InvalidFrame),
    {
        if self.read_buf.len() == 0 {
            Ok(())
        } else {
            Err(ProtocolError::InvalidFrame)
        }
    }

    /// Number of bytes received and not yet decoded.
    pub fn buffer_size(&self) -> (n: usize)
        ensures
            n == self.buffer().len(),
    {
        self.read_buf.len()
    }

    /// Drops what is buffered.
    pub fn clear_buffer(&mut self)
        ensures
            final(self).buffer() == Seq::<u8>::empty(),
            final(self).limit() == old(self).limit(),
    {
        self.read_buf.clear();
    }
}

} // verus!
