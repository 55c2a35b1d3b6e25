//! Frames: the unit of framing that the transport sees.

use vstd::prelude::*;
use vstd::slice::{slice_subrange, slice_to_vec};
use crate::proto::error::ProtocolError;
use crate::text::copy_str;

verus! {

/// Bit pattern of a frame without flags.
pub const FLAG_NONE: u8 = 0;

/// Bit of the end-of-stream flag.
pub const FLAG_END_STREAM: u8 = 1;

/// Bit of the error flag.
pub const FLAG_ERROR: u8 = 2;

/// Bit of the flow-control flag.
pub const FLAG_FLOW_CONTROL: u8 = 4;

/// Bit set carried by every frame.
#[derive(Debug, Clone, Copy, PartialEq, Eq, Structural)]
pub struct FrameFlags(pub u8);

impl FrameFlags {
    /// No special flags.
    pub fn none() -> (r: FrameFlags)
        ensures
            r.0 == FLAG_NONE,
    {
        FrameFlags(FLAG_NONE)
    }

    /// The sender closes the stream with this frame.
    pub fn end_stream() -> (r: FrameFlags)
        ensures
            r.0 == FLAG_END_STREAM,
    {
        FrameFlags(FLAG_END_STREAM)
    }

    /// The payload is a serialized error record.
    pub fn error() -> (r: FrameFlags)
        ensures
            r.0 == FLAG_ERROR,
    {
        FrameFlags(FLAG_ERROR)
    }

    /// The frame carries a flow-control update.
    pub fn flow_control() -> (r: FrameFlags)
        ensures
            r.0 == FLAG_FLOW_CONTROL,
    {
        FrameFlags(FLAG_FLOW_CONTROL)
    }

    /// Whether any bit of `flag` is set in `self`.
    pub open spec fn spec_has_flag(self, flag: FrameFlags) -> bool {
        (self.0 & flag.0) != 0
    }

    /// Check if a flag is set.
    #[verifier::when_used_as_spec(spec_has_flag)]
    pub fn has_flag(self, flag: FrameFlags) -> (r: bool)
        ensures
            r == self.spec_has_flag(flag),
    {
        (self.0 & flag.0) != 0
    }

    /// Set a flag, leaving every other bit as it was.
    pub fn set_flag(&mut self, flag: FrameFlags)
        ensures
            final(self).0 == old(self).0 | flag.0,
            flag.0 != 0 ==> final(self).spec_has_flag(flag),
    {
        let before: u8 = self.0;
        let bits: u8 = flag.0;
        assert(bits != 0 ==> ((before | bits) & bits) != 0) by (bit_vector);
        self.0 = before | bits;
    }

    /// Clear a flag, leaving every other bit as it was.
    pub fn clear_flag(&mut self, flag: FrameFlags)
        ensures
            final(self).0 == old(self).0 & !flag.0,
            !final(self).spec_has_flag(flag),
    {
        let before: u8 = self.0;
        let bits: u8 = flag.0;
        assert(((before & !bits) & bits) == 0) by (bit_vector);
        self.0 = before & !bits;
    }
}

/// A frame: one unit on a stream.
#[derive(Debug, Clone)]
pub struct Frame {
    /// Logical channel.
    pub stream_id: u32,
    /// Position of the frame on its stream, from zero.
    pub sequence: u32,
    /// Flags.
    pub flags: FrameFlags,
    /// Opaque payload.
    pub payload: Vec<u8>,
}

/// A frame as a mathematical value.
pub struct FrameView {
    pub stream_id: u32,
    pub sequence: u32,
    pub flags: u8,
    pub payload: Seq<u8>,
}

impl View for Frame {
    type V = FrameView;

    open spec fn view(&self) -> FrameView {
        FrameView {
            stream_id: self.stream_id,
            sequence: self.sequence,
            flags: self.flags.0,
            payload: self.payload@,
        }
    }
}

/// Largest payload that the wire format can announce.
pub const MAX_PAYLOAD_LEN: usize = 0xffff_ffff;

/// The four bytes of `n`, most significant first.
pub open spec fn be32(n: nat) -> Seq<u8>
    recommends
        n <= 0xffff_ffff,
{
    seq![
        (n / 0x100_0000) as u8,
        ((n / 0x1_0000) % 0x100) as u8,
        ((n / 0x100) % 0x100) as u8,
        (n % 0x100) as u8,
    ]
}

/// The number that four bytes write, most significant first.
pub open spec fn be32_value(b0: u8, b1: u8, b2: u8, b3: u8) -> nat {
    (b0 as nat) * 0x100_0000 + (b1 as nat) * 0x1_0000 + (b2 as nat) * 0x100 + (b3 as nat)
}

/// An unsigned integer on the wire: the shortest of the four forms that
/// holds it (one byte below 128, else a tag and one, two or four bytes).
pub open spec fn uint_wire(n: nat) -> Seq<u8>
    recommends
        n <= 0xffff_ffff,
{
    if n < 0x80 {
        seq![n as u8]
    } else if n < 0x100 {
        seq![0xccu8, n as u8]
    } else if n < 0x1_0000 {
        seq![0xcdu8, (n / 0x100) as u8, (n % 0x100) as u8]
    } else {
        seq![0xceu8] + be32(n)
    }
}

/// The header of a binary blob of `len` bytes: a tag and the length in the
/// shortest of one, two or four bytes.
pub open spec fn bin_header(len: nat) -> Seq<u8>
    recommends
        len <= 0xffff_ffff,
{
    if len < 0x100 {
        seq![0xc4u8, len as u8]
    } else if len < 0x1_0000 {
        seq![0xc5u8, (len / 0x100) as u8, (len % 0x100) as u8]
    } else {
        seq![0xc6u8] + be32(len)
    }
}

/// The body of a frame on the wire: the tag of a record of four fields, then
/// stream id, sequence and flags as unsigned integers, then the payload as a
/// binary blob.
pub open spec fn frame_wire(f: FrameView) -> Seq<u8> {
    seq![0x94u8] + uint_wire(f.stream_id as nat) + uint_wire(f.sequence as nat) + uint_wire(
        f.flags as nat,
    ) + bin_header(f.payload.len()) + f.payload
}

/// Reads an unsigned integer in shortest form at `at`: its value and the
/// position behind it.
pub closed spec fn read_uint(b: Seq<u8>, at: int) -> Option<(nat, int)> {
    if at < 0 || at >= b.len() {
        None
    } else if b[at] < 0x80 {
        Some((b[at] as nat, at + 1))
    } else if b[at] == 0xcc {
        if at + 1 < b.len() && b[at + 1] >= 0x80 {
            Some((b[at + 1] as nat, at + 2))
        } else {
            None
        }
    } else if b[at] == 0xcd {
        if at + 2 < b.len() && b[at + 1] > 0 {
            Some(((b[at + 1] as nat) * 0x100 + (b[at + 2] as nat), at + 3))
        } else {
            None
        }
    } else if b[at] == 0xce {
        if at + 4 < b.len() && (b[at + 1] > 0 || b[at + 2] > 0) {
            Some((be32_value(b[at + 1], b[at + 2], b[at + 3], b[at + 4]), at + 5))
        } else {
            None
        }
    } else {
        None
    }
}

/// Reads the header of a binary blob at `at`: the announced length and the
/// position behind the header.
pub closed spec fn read_bin_header(b: Seq<u8>, at: int) -> Option<(nat, int)> {
    if at < 0 || at >= b.len() {
        None
    } else if b[at] == 0xc4 {
        if at + 1 < b.len() {
            Some((b[at + 1] as nat, at + 2))
        } else {
            None
        }
    } else if b[at] == 0xc5 {
        if at + 2 < b.len() && b[at + 1] > 0 {
            Some(((b[at + 1] as nat) * 0x100 + (b[at + 2] as nat), at + 3))
        } else {
            None
        }
    } else if b[at] == 0xc6 {
        if at + 4 < b.len() && (b[at + 1] > 0 || b[at + 2] > 0) {
            Some((be32_value(b[at + 1], b[at + 2], b[at + 3], b[at + 4]), at + 5))
        } else {
            None
        }
    } else {
        None
    }
}

/// The frame that a body decodes to, if it is the wire form of one.
pub closed spec fn frame_unwire(b: Seq<u8>) -> Option<FrameView> {
    if b.len() == 0 || b[0] != 0x94 {
        None
    } else {
        match read_uint(b, 1) {
            None => None,
            Some((stream_id, pos_a)) => match read_uint(b, pos_a) {
                None => None,
                Some((sequence, pos_b)) => match read_uint(b, pos_b) {
                    None => None,
                    Some((flags, pos_c)) => if flags > 0xff {
                        None
                    } else {
                        match read_bin_header(b, pos_c) {
                            None => None,
                            Some((len, pos_d)) => if pos_d + len == b.len() {
                                Some(
                                    FrameView {
                                        stream_id: stream_id as u32,
                                        sequence: sequence as u32,
                                        flags: flags as u8,
                                        payload: b.subrange(pos_d, b.len() as int),
                                    },
                                )
                            } else {
                                None
                            },
                        }
                    },
                },
            },
        }
    }
}

/// The four bytes of a number write that number.
pub proof fn lemma_be32_inverse(n: nat)
    requires
        n <= 0xffff_ffff,
    ensures
        be32(n).len() == 4,
        be32_value(be32(n)[0], be32(n)[1], be32(n)[2], be32(n)[3]) == n,
        n >= 0x1_0000 ==> be32(n)[0] > 0 || be32(n)[1] > 0,
{
}

proof fn lemma_be32_value(b0: u8, b1: u8, b2: u8, b3: u8)
    ensures
        be32_value(b0, b1, b2, b3) <= 0xffff_ffff,
        be32(be32_value(b0, b1, b2, b3)) == seq![b0, b1, b2, b3],
        (b0 > 0 || b1 > 0) ==> be32_value(b0, b1, b2, b3) >= 0x1_0000,
{
    let n = be32_value(b0, b1, b2, b3) as int;
    let low3 = (b1 as int) * 0x1_0000 + (b2 as int) * 0x100 + (b3 as int);
    let low2 = (b2 as int) * 0x100 + (b3 as int);
    let high2 = (b0 as int) * 0x100 + (b1 as int);
    let high3 = (b0 as int) * 0x1_0000 + (b1 as int) * 0x100 + (b2 as int);
    vstd::arithmetic::div_mod::lemma_fundamental_div_mod_converse(n, 0x100_0000, b0 as int, low3);
    vstd::arithmetic::div_mod::lemma_fundamental_div_mod_converse(n, 0x1_0000, high2, low2);
    vstd::arithmetic::div_mod::lemma_fundamental_div_mod_converse(
        high2,
        0x100,
        b0 as int,
        b1 as int,
    );
    vstd::arithmetic::div_mod::lemma_fundamental_div_mod_converse(n, 0x100, high3, b3 as int);
    vstd::arithmetic::div_mod::lemma_fundamental_div_mod_converse(
        high3,
        0x100,
        high2,
        b2 as int,
    );
    let n = be32_value(b0, b1, b2, b3);
    assert(be32(n) =~= seq![b0, b1, b2, b3]);
}

proof fn lemma_uint_wire_len(n: nat)
    requires
        n <= 0xffff_ffff,
    ensures
        1 <= uint_wire(n).len() <= 5,
{
}

proof fn lemma_read_uint_of_wire(b: Seq<u8>, at: int, n: nat)
    requires
        n <= 0xffff_ffff,
        0 <= at,
        at + uint_wire(n).len() <= b.len(),
        b.subrange(at, at + uint_wire(n).len()) == uint_wire(n),
    ensures
        read_uint(b, at) == Some((n, at + uint_wire(n).len())),
{
    let w = uint_wire(n);
    assert forall|k: int| 0 <= k < w.len() implies b[at + k] == w[k] by {
        assert(b.subrange(at, at + w.len())[k] == b[at + k]);
    }
    assert(b[at] == w[0]);
    if n < 0x80 {
    } else if n < 0x100 {
        assert(b[at + 1] == w[1]);
    } else if n < 0x1_0000 {
        assert(b[at + 1] == w[1]);
        assert(b[at + 2] == w[2]);
    } else {
        lemma_be32_inverse(n);
        assert(b[at + 1] == w[1]);
        assert(b[at + 2] == w[2]);
        assert(b[at + 3] == w[3]);
        assert(b[at + 4] == w[4]);
        assert(w[1] == be32(n)[0] && w[2] == be32(n)[1] && w[3] == be32(n)[2] && w[4] == be32(
            n,
        )[3]);
    }
}

proof fn lemma_read_bin_header_of_wire(b: Seq<u8>, at: int, n: nat)
    requires
        n <= 0xffff_ffff,
        0 <= at,
        at + bin_header(n).len() <= b.len(),
        b.subrange(at, at + bin_header(n).len()) == bin_header(n),
    ensures
        read_bin_header(b, at) == Some((n, at + bin_header(n).len())),
{
    let w = bin_header(n);
    assert forall|k: int| 0 <= k < w.len() implies b[at + k] == w[k] by {
        assert(b.subrange(at, at + w.len())[k] == b[at + k]);
    }
    assert(b[at] == w[0]);
    assert(b[at + 1] == w[1]);
    if n < 0x100 {
    } else if n < 0x1_0000 {
        assert(b[at + 2] == w[2]);
    } else {
        lemma_be32_inverse(n);
        assert(b[at + 2] == w[2]);
        assert(b[at + 3] == w[3]);
        assert(b[at + 4] == w[4]);
        assert(w[1] == be32(n)[0] && w[2] == be32(n)[1] && w[3] == be32(n)[2] && w[4] == be32(
            n,
        )[3]);
    }
}

proof fn lemma_wire_of_read_uint(b: Seq<u8>, at: int)
    requires
        read_uint(b, at) is Some,
    ensures
        read_uint(b, at).unwrap().0 <= 0xffff_ffff,
        at < read_uint(b, at).unwrap().1 <= b.len(),
        b.subrange(at, read_uint(b, at).unwrap().1) == uint_wire(read_uint(b, at).unwrap().0),
{
    let n = read_uint(b, at).unwrap().0;
    let next = read_uint(b, at).unwrap().1;
    if b[at] < 0x80 {
        assert(b.subrange(at, next) =~= uint_wire(n));
    } else if b[at] == 0xcc {
        assert(b.subrange(at, next) =~= uint_wire(n));
    } else if b[at] == 0xcd {
        assert(n / 0x100 == b[at + 1] as nat);
        assert(n % 0x100 == b[at + 2] as nat);
        assert(b.subrange(at, next) =~= uint_wire(n));
    } else {
        lemma_be32_value(b[at + 1], b[at + 2], b[at + 3], b[at + 4]);
        assert(b.subrange(at, next) =~= seq![0xceu8] + seq![
            b[at + 1],
            b[at + 2],
            b[at + 3],
            b[at + 4],
        ]);
    }
}

proof fn lemma_wire_of_read_bin_header(b: Seq<u8>, at: int)
    requires
        read_bin_header(b, at) is Some,
    ensures
        read_bin_header(b, at).unwrap().0 <= 0xffff_ffff,
        at < read_bin_header(b, at).unwrap().1 <= b.len(),
        b.subrange(at, read_bin_header(b, at).unwrap().1) == bin_header(read_bin_header(b,
            at).unwrap().0),
{
    let n = read_bin_header(b, at).unwrap().0;
    let next = read_bin_header(b, at).unwrap().1;
    if b[at] == 0xc4 {
        assert(b.subrange(at, next) =~= bin_header(n));
    } else if b[at] == 0xc5 {
        assert(n / 0x100 == b[at + 1] as nat);
        assert(n % 0x100 == b[at + 2] as nat);
        assert(b.subrange(at, next) =~= bin_header(n));
    } else {
        lemma_be32_value(b[at + 1], b[at + 2], b[at + 3], b[at + 4]);
        assert(b.subrange(at, next) =~= seq![0xc6u8] + seq![
            b[at + 1],
            b[at + 2],
            b[at + 3],
            b[at + 4],
        ]);
    }
}

/// Decoding inverts encoding: the wire form of a frame decodes to that frame,
/// every field as it was.
pub proof fn lemma_unwire_of_wire(f: FrameView)
    requires
        f.payload.len() <= 0xffff_ffff,
    ensures
        frame_unwire(frame_wire(f)) == Some(f),
{
    let b = frame_wire(f);
    let w1 = uint_wire(f.stream_id as nat);
    let w2 = uint_wire(f.sequence as nat);
    let w3 = uint_wire(f.flags as nat);
    let h = bin_header(f.payload.len());
    lemma_uint_wire_len(f.stream_id as nat);
    lemma_uint_wire_len(f.sequence as nat);
    lemma_uint_wire_len(f.flags as nat);
    let pos_a = 1 + w1.len();
    let pos_b = pos_a + w2.len();
    let pos_c = pos_b + w3.len();
    let pos_d = pos_c + h.len();
    assert(b[0] == 0x94);
    assert(b.subrange(1, pos_a as int) =~= w1);
    assert(b.subrange(pos_a as int, pos_b as int) =~= w2);
    assert(b.subrange(pos_b as int, pos_c as int) =~= w3);
    assert(b.subrange(pos_c as int, pos_d as int) =~= h);
    assert(b.subrange(pos_d as int, b.len() as int) =~= f.payload);
    lemma_read_uint_of_wire(b, 1, f.stream_id as nat);
    lemma_read_uint_of_wire(b, pos_a as int, f.sequence as nat);
    lemma_read_uint_of_wire(b, pos_b as int, f.flags as nat);
    lemma_read_bin_header_of_wire(b, pos_c as int, f.payload.len());
}

/// Only wire forms decode: a body that decodes to a frame is the wire form of
/// that frame, byte for byte.
pub proof fn lemma_wire_of_unwire(b: Seq<u8>)
    requires
        frame_unwire(b) is Some,
    ensures
        frame_wire(frame_unwire(b).unwrap()) == b,
        frame_unwire(b).unwrap().payload.len() <= 0xffff_ffff,
{
    let f = frame_unwire(b).unwrap();
    lemma_wire_of_read_uint(b, 1);
    let pos_a = read_uint(b, 1).unwrap().1;
    lemma_wire_of_read_uint(b, pos_a);
    let pos_b = read_uint(b, pos_a).unwrap().1;
    lemma_wire_of_read_uint(b, pos_b);
    let pos_c = read_uint(b, pos_b).unwrap().1;
    lemma_wire_of_read_bin_header(b, pos_c);
    let pos_d = read_bin_header(b, pos_c).unwrap().1;
    assert(b =~= seq![0x94u8] + b.subrange(1, pos_a) + b.subrange(pos_a, pos_b) + b.subrange(pos_b,
        pos_c)
        + b.subrange(pos_c, pos_d) + b.subrange(pos_d, b.len() as int));
}

/// Two frames with the same wire form are the same frame.
pub proof fn lemma_wire_injective(f: FrameView, g: FrameView)
    requires
        f.payload.len() <= 0xffff_ffff,
        g.payload.len() <= 0xffff_ffff,
        frame_wire(f) == frame_wire(g),
    ensures
        f == g,
{
    lemma_unwire_of_wire(f);
    lemma_unwire_of_wire(g);
}

fn put_be32(out: &mut Vec<u8>, n: u32)
    ensures
        final(out)@ == old(out)@ + be32(n as nat),
{
    out.push((n / 0x100_0000) as u8);
    out.push(((n / 0x1_0000) % 0x100) as u8);
    out.push(((n / 0x100) % 0x100) as u8);
    out.push((n % 0x100) as u8);
    assert(out@ =~= old(out)@ + be32(n as nat));
}

fn put_uint(out: &mut Vec<u8>, n: u32)
    ensures
        final(out)@ == old(out)@ + uint_wire(n as nat),
{
    if n < 0x80 {
        out.push(n as u8);
    } else if n < 0x100 {
        out.push(0xcc);
        out.push(n as u8);
    } else if n < 0x1_0000 {
        out.push(0xcd);
        out.push((n / 0x100) as u8);
        out.push((n % 0x100) as u8);
    } else {
        out.push(0xce);
        put_be32(out, n);
    }
    assert(out@ =~= old(out)@ + uint_wire(n as nat));
}

fn put_bin_header(out: &mut Vec<u8>, len: u32)
    ensures
        final(out)@ == old(out)@ + bin_header(len as nat),
{
    if len < 0x100 {
        out.push(0xc4);
        out.push(len as u8);
    } else if len < 0x1_0000 {
        out.push(0xc5);
        out.push((len / 0x100) as u8);
        out.push((len % 0x100) as u8);
    } else {
        out.push(0xc6);
        put_be32(out, len);
    }
    assert(out@ =~= old(out)@ + bin_header(len as nat));
}

fn get_be32(bytes: &[u8], at: usize) -> (n: u32)
    requires
        at + 4 <= bytes@.len(),
    ensures
        n as nat == be32_value(
            bytes@[at as int],
            bytes@[at + 1],
            bytes@[at + 2],
            bytes@[at + 3],
        ),
{
    let b0: u32 = bytes[at] as u32;
    let b1: u32 = bytes[at + 1] as u32;
    let b2: u32 = bytes[at + 2] as u32;
    let b3: u32 = bytes[at + 3] as u32;
    b0 * 0x100_0000 + b1 * 0x1_0000 + b2 * 0x100 + b3
}

fn get_uint(bytes: &[u8], at: usize) -> (r: Option<(u32, usize)>)
    requires
        at <= bytes@.len(),
    ensures
        match r {
            Some((n, next)) => read_uint(bytes@, at as int) == Some((n as nat, next as int)),
            None => read_uint(bytes@, at as int) is None,
        },
{
    let len: usize = bytes.len();
    if at >= len {
        return None;
    }
    let left: usize = len - at;
    let tag: u8 = bytes[at];
    if tag < 0x80 {
        Some((tag as u32, at + 1))
    } else if tag == 0xcc {
        if left > 1 && bytes[at + 1] >= 0x80 {
            Some((bytes[at + 1] as u32, at + 2))
        } else {
            None
        }
    } else if tag == 0xcd {
        if left > 2 && bytes[at + 1] > 0 {
            let hi: u32 = bytes[at + 1] as u32;
            let lo: u32 = bytes[at + 2] as u32;
            Some((hi * 0x100 + lo, at + 3))
        } else {
            None
        }
    } else if tag == 0xce {
        if left > 4 && (bytes[at + 1] > 0 || bytes[at + 2] > 0) {
            Some((get_be32(bytes, at + 1), at + 5))
        } else {
            None
        }
    } else {
        None
    }
}

fn get_bin_header(bytes: &[u8], at: usize) -> (r: Option<(u32, usize)>)
    requires
        at <= bytes@.len(),
    ensures
        match r {
            Some((n, next)) => read_bin_header(bytes@, at as int) == Some(
                (n as nat, next as int),
            ),
            None => read_bin_header(bytes@, at as int) is None,
        },
{
    let len: usize = bytes.len();
    if at >= len {
        return None;
    }
    let left: usize = len - at;
    let tag: u8 = bytes[at];
    if tag == 0xc4 {
        if left > 1 {
            Some((bytes[at + 1] as u32, at + 2))
        } else {
            None
        }
    } else if tag == 0xc5 {
        if left > 2 && bytes[at + 1] > 0 {
            let hi: u32 = bytes[at + 1] as u32;
            let lo: u32 = bytes[at + 2] as u32;
            Some((hi * 0x100 + lo, at + 3))
        } else {
            None
        }
    } else if tag == 0xc6 {
        if left > 4 && (bytes[at + 1] > 0 || bytes[at + 2] > 0) {
            Some((get_be32(bytes, at + 1), at + 5))
        } else {
            None
        }
    } else {
        None
    }
}

fn unwire(bytes: &[u8]) -> (r: Option<Frame>)
    ensures
        match r {
            Some(f) => frame_unwire(bytes@) == Some(f@),
            None => frame_unwire(bytes@) is None,
        },
{
    if bytes.len() == 0 || bytes[0] != 0x94 {
        return None;
    }
    let (stream_id, pos_a) = match get_uint(bytes, 1) {
        Some(x) => x,
        None => { return None; },
    };
    proof {
        lemma_wire_of_read_uint(bytes@, 1);
    }
    let (sequence, pos_b) = match get_uint(bytes, pos_a) {
        Some(x) => x,
        None => { return None; },
    };
    proof {
        lemma_wire_of_read_uint(bytes@, pos_a as int);
    }
    let (flags, pos_c) = match get_uint(bytes, pos_b) {
        Some(x) => x,
        None => { return None; },
    };
    proof {
        lemma_wire_of_read_uint(bytes@, pos_b as int);
    }
    if flags > 0xff {
        return None;
    }
    let (len, pos_d) = match get_bin_header(bytes, pos_c) {
        Some(x) => x,
        None => { return None; },
    };
    proof {
        lemma_wire_of_read_bin_header(bytes@, pos_c as int);
    }
    if bytes.len() - pos_d != len as usize {
        return None;
    }
    let payload = slice_to_vec(slice_subrange(bytes, pos_d, bytes.len()));
    Some(Frame { stream_id, sequence, flags: FrameFlags(flags as u8), payload })
}

impl Frame {
    /// A frame of these four fields.
    pub fn new(stream_id: u32, sequence: u32, flags: FrameFlags, payload: Vec<u8>) -> (f: Frame)
        ensures
            f == (Frame { stream_id, sequence, flags, payload }),
    {
        Frame { stream_id, sequence, flags, payload }
    }

    /// A data frame: no flag set.
    pub fn data(stream_id: u32, sequence: u32, payload: Vec<u8>) -> (f: Frame)
        ensures
            f == (Frame { stream_id, sequence, flags: FrameFlags(FLAG_NONE), payload }),
    {
        Frame::new(stream_id, sequence, FrameFlags::none(), payload)
    }

    /// An end-of-stream frame: the end-of-stream flag and an empty payload.
    pub fn end_stream(stream_id: u32, sequence: u32) -> (f: Frame)
        ensures
            f.stream_id == stream_id,
            f.sequence == sequence,
            f.flags == FrameFlags(FLAG_END_STREAM),
            f.payload@ == Seq::<u8>::empty(),
    {
        Frame::new(stream_id, sequence, FrameFlags::end_stream(), Vec::new())
    }

    /// An error frame: the error flag, the payload a serialized error record.
    pub fn error(stream_id: u32, sequence: u32, payload: Vec<u8>) -> (f: Frame)
        ensures
            f == (Frame { stream_id, sequence, flags: FrameFlags(FLAG_ERROR), payload }),
    {
        Frame::new(stream_id, sequence, FrameFlags::error(), payload)
    }

    /// The body of the frame on the wire. Fails only for a payload whose
    /// length does not fit the format's 32 bits.
    pub fn to_msgpack(&self) -> (r: Result<Vec<u8>, ProtocolError>)
        ensures
            match r {
                Ok(b) => self.payload@.len() <= MAX_PAYLOAD_LEN && b@ == frame_wire(self@),
                Err(e) => self.payload@.len() > MAX_PAYLOAD_LEN && e is Serialization,
            },
    {
        if self.payload.len() > MAX_PAYLOAD_LEN {
            return Err(ProtocolError::Serialization(copy_str("payload too long for a frame")));
        }
        let mut out: Vec<u8> = Vec::new();
        out.push(0x94);
        put_uint(&mut out, self.stream_id);
        put_uint(&mut out, self.sequence);
        put_uint(&mut out, self.flags.0 as u32);
        put_bin_header(&mut out, self.payload.len() as u32);
        out.extend_from_slice(self.payload.as_slice());
        assert(out@ =~= frame_wire(self@));
        Ok(out)
    }

    /// The frame whose wire form `bytes` is. Fails exactly when `bytes` is
    /// the wire form of no frame.
    ///
    /// A frame has one wire form, the one that `to_msgpack` writes. Bytes
    /// that say the same in another way are refused like any other bytes:
    /// an integer or a length written in more bytes than it needs, a
    /// payload written as text or as a list, a record written with field
    /// names, and anything that has bytes behind the payload.
    pub fn from_msgpack(bytes: &[u8]) -> (r: Result<Frame, ProtocolError>)
        ensures
            match r {
                Ok(f) => f.payload@.len() <= MAX_PAYLOAD_LEN && bytes@ == frame_wire(f@)
                    && frame_unwire(bytes@) == Some(f@),
                Err(e) => e is Serialization && frame_unwire(bytes@) is None && forall|
                    f: FrameView,
                |
                    f.payload.len() <= MAX_PAYLOAD_LEN ==> #[trigger] frame_wire(f) != bytes@,
            },
    {
        match unwire(bytes) {
            Some(f) => {
                proof {
                    lemma_wire_of_unwire(bytes@);
                }
                Ok(f)
            },
            None => {
                proof {
                    assert forall|f: FrameView|
                        f.payload.len() <= MAX_PAYLOAD_LEN implies #[trigger] frame_wire(f)
                        != bytes@ by {
                        lemma_unwire_of_wire(f);
                    }
                }
                Err(ProtocolError::Serialization(copy_str("bytes are not the encoding of a frame")))
            },
        }
    }

    /// Length of the payload in bytes.
    pub fn payload_size(&self) -> (n: usize)
        ensures
            n == self.payload@.len(),
    {
        self.payload.len()
    }

    /// Whether the end-of-stream flag is set.
    pub open spec fn spec_is_end_stream(&self) -> bool {
        self.flags.spec_has_flag(FrameFlags(FLAG_END_STREAM))
    }

    /// Whether the end-of-stream flag is set.
    #[verifier::when_used_as_spec(spec_is_end_stream)]
    pub fn is_end_stream(&self) -> (r: bool)
        ensures
            r == self.spec_is_end_stream(),
    {
        self.flags.has_flag(FrameFlags::end_stream())
    }

    /// Whether the error flag is set.
    pub open spec fn spec_is_error(&self) -> bool {
        self.flags.spec_has_flag(FrameFlags(FLAG_ERROR))
    }

    /// Whether the error flag is set.
    #[verifier::when_used_as_spec(spec_is_error)]
    pub fn is_error(&self) -> (r: bool)
        ensures
            r == self.spec_is_error(),
    {
        self.flags.has_flag(FrameFlags::error())
    }
}

} // verus!
