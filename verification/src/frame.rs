//! Frames: the length-delimited, integrity-checked units of the wire protocol.
//!
//! On the wire a frame is, in order: the four magic bytes, one version byte,
//! one flags byte, the payload length as a big-endian `u32`, the payload, and
//! the CRC-32 of version, flags and payload as a big-endian `u32`.
//!
//! A payload may be empty: a frame of no payload is encoded and decoded like
//! any other.

use vstd::prelude::*;
use bytes::{Bytes, BytesMut};
use crc32fast::Hasher;
use crate::buffer::{
    be_bytes, buffer_advance, buffer_as_slice, buffer_contents, buffer_put_slice, buffer_put_u32,
    buffer_put_u8, bytes_as_slice, bytes_contents,
};
use crate::checksum::{crc32, hasher_input};
use crate::error::ProtocolError;

verus! {

pub const MAGIC: [u8; 4] = [0x53, 0x4E, 0x54, 0x4C];

pub const MAGIC_LEN: usize = 4;

pub const VERSION_LEN: usize = 1;

pub const FLAGS_LEN: usize = 1;

pub const LENGTH_LEN: usize = 4;

pub const CRC_LEN: usize = 4;

pub const VERSION_OFFSET: usize = MAGIC_LEN;

pub const FLAGS_OFFSET: usize = VERSION_OFFSET + VERSION_LEN;

pub const LENGTH_OFFSET: usize = FLAGS_OFFSET + FLAGS_LEN;

pub const HEADER_SIZE: usize = MAGIC_LEN + VERSION_LEN + FLAGS_LEN + LENGTH_LEN;

pub const MAX_FRAME_SIZE: usize = 10 * 1024 * 1024;

pub const SUPPORTED_VERSION: u8 = 1;

/// The magic bytes, `"SNTL"`, as a sequence.
pub open spec fn magic() -> Seq<u8> {
    seq![0x53u8, 0x4Eu8, 0x54u8, 0x4Cu8]
}

/// The number that four bytes spell, most significant first.
pub open spec fn be_value(b: Seq<u8>) -> int
    recommends
        b.len() == 4,
{
    b[0] * 0x100_0000 + b[1] * 0x1_0000 + b[2] * 0x100 + b[3]
}

/// What a frame is: its three parts as plain values.
pub struct FrameView {
    pub version: u8,
    pub flags: u8,
    pub payload: Seq<u8>,
}

impl FrameView {
    /// A frame can exist only with the supported version and a payload
    /// within the size limit.
    pub open spec fn valid(self) -> bool {
        &&& self.version == SUPPORTED_VERSION
        &&& self.payload.len() <= MAX_FRAME_SIZE
    }

    /// The bytes that the checksum covers: version, flags, payload.
    pub open spec fn checked_bytes(self) -> Seq<u8> {
        seq![self.version, self.flags] + self.payload
    }

    /// The frame on the wire.
    pub open spec fn encoded(self) -> Seq<u8> {
        magic() + seq![self.version, self.flags] + be_bytes(self.payload.len() as u32)
            + self.payload + be_bytes(crc32(self.checked_bytes()))
    }
}

/// What the front of a byte stream decodes to.
///
/// `Ok(None)` asks for more bytes; `Ok(Some(f))` is a whole frame, which
/// takes up the first `f.encoded().len()` bytes; an error condemns the stream.
pub open spec fn decode_spec(buf: Seq<u8>) -> Result<Option<FrameView>, ProtocolError> {
    if buf.len() < HEADER_SIZE {
        Ok(None)
    } else if buf.subrange(0, 4) != magic() {
        Err(ProtocolError::InvalidMagic)
    } else {
        let len = be_value(buf.subrange(6, 10));
        if len > MAX_FRAME_SIZE {
            Err(ProtocolError::FrameTooLarge)
        } else if buf.len() < HEADER_SIZE + len + CRC_LEN {
            Ok(None)
        } else {
            let frame = FrameView {
                version: buf[4],
                flags: buf[5],
                payload: buf.subrange(10, 10 + len),
            };
            if be_value(buf.subrange(10 + len, 14 + len)) != crc32(frame.checked_bytes()) {
                Err(ProtocolError::IntegrityCheckFailed)
            } else if frame.version != SUPPORTED_VERSION {
                Err(ProtocolError::UnsupportedVersion(frame.version))
            } else {
                Ok(Some(frame))
            }
        }
    }
}

/// One unit of the wire protocol. Once made, a frame does not change.
#[derive(Debug, PartialEq)]
pub struct Frame {
    version: u8,
    flags: u8,
    payload: Bytes,
}

impl View for Frame {
    type V = FrameView;

    closed spec fn view(&self) -> FrameView {
        FrameView {
            version: self.version,
            flags: self.flags,
            payload: bytes_contents(self.payload),
        }
    }
}

impl Clone for Frame {
    fn clone(&self) -> (c: Self)
        ensures
            c@ == self@,
    {
        proof {
            use_type_invariant(self);
        }
        Frame { version: self.version, flags: self.flags, payload: self.payload.clone() }
    }
}

/// Reads four bytes at `at` as a big-endian number.
fn read_u32(data: &[u8], at: usize) -> (n: u32)
    requires
        at + 4 <= data@.len(),
    ensures
        n == be_value(data@.subrange(at as int, at + 4)),
{
    let b0: u32 = data[at] as u32;
    let b1: u32 = data[at + 1] as u32;
    let b2: u32 = data[at + 2] as u32;
    let b3: u32 = data[at + 3] as u32;
    b0 * 0x100_0000 + b1 * 0x1_0000 + b2 * 0x100 + b3
}

impl Frame {
    #[verifier::type_invariant]
    spec fn well_formed(self) -> bool {
        &&& self.version == SUPPORTED_VERSION
        &&& bytes_contents(self.payload).len() <= MAX_FRAME_SIZE
    }

    /// Makes a frame, or says why there can be none: a version other than
    /// the supported one is refused first, then a payload over the limit.
    pub fn new(version: u8, flags: u8, payload: Bytes) -> (r: Result<Self, ProtocolError>)
        ensures
            match r {
                Ok(f) => f@ == (FrameView { version, flags, payload: bytes_contents(payload) })
                    && f@.valid(),
                Err(e) => if version != SUPPORTED_VERSION {
                    e == ProtocolError::UnsupportedVersion(version)
                } else {
                    e == ProtocolError::FrameTooLarge
                },
            },
            r is Ok <==> version == SUPPORTED_VERSION && bytes_contents(payload).len()
                <= MAX_FRAME_SIZE,
    {
        if version != SUPPORTED_VERSION {
            return Err(ProtocolError::UnsupportedVersion(version));
        }
        if payload.len() > MAX_FRAME_SIZE {
            return Err(ProtocolError::FrameTooLarge);
        }
        Ok(Self { version, flags, payload })
    }

    pub fn version(&self) -> (v: u8)
        ensures
            v == self@.version,
            v == SUPPORTED_VERSION,
    {
        proof {
            use_type_invariant(self);
        }
        self.version
    }

    pub fn flags(&self) -> (v: u8)
        ensures
            v == self@.flags,
    {
        self.flags
    }

    pub fn payload(&self) -> (p: &Bytes)
        ensures
            bytes_contents(*p) == self@.payload,
            self@.payload.len() <= MAX_FRAME_SIZE,
    {
        proof {
            use_type_invariant(self);
        }
        &self.payload
    }

    /// The checksum over version, flags and payload.
    fn calculate_crc(version: u8, flags: u8, payload: &[u8]) -> (sum: u32)
        ensures
            sum == crc32(seq![version, flags] + payload@),
    {
        let mut hasher = Hasher::new();
        let head: [u8; 2] = [version, flags];
        hasher.update(head.as_slice());
        hasher.update(payload);
        assert(hasher_input(hasher) =~= seq![version, flags] + payload@);
        hasher.finalize()
    }

    /// Takes one frame off the front of `src`, if a whole one is there.
    ///
    /// The outcome is `decode_spec` of what `src` held. A frame that is
    /// returned has been removed from `src`, header and trailer included;
    /// in every other case `src` is left exactly as it was, be it for want
    /// of bytes or on an error.
    pub fn decode(src: &mut BytesMut) -> (r: Result<Option<Self>, ProtocolError>)
        ensures
            match r {
                Ok(Some(f)) => {
                    &&& decode_spec(buffer_contents(*old(src))) == Ok::<
                        Option<FrameView>,
                        ProtocolError,
                    >(Some(f@))
                    &&& f@.valid()
                    &&& buffer_contents(*old(src)) == f@.encoded() + buffer_contents(*final(src))
                },
                Ok(None) => {
                    &&& decode_spec(buffer_contents(*old(src))) == Ok::<
                        Option<FrameView>,
                        ProtocolError,
                    >(None)
                    &&& buffer_contents(*final(src)) == buffer_contents(*old(src))
                },
                Err(e) => {
                    &&& decode_spec(buffer_contents(*old(src))) == Err::<
                        Option<FrameView>,
                        ProtocolError,
                    >(e)
                    &&& buffer_contents(*final(src)) == buffer_contents(*old(src))
                },
            },
    {
        let ghost buf = buffer_contents(*src);
        if src.len() < HEADER_SIZE {
            return Ok(None);
        }
        let data = buffer_as_slice(src);
        if data[0] != MAGIC[0] || data[1] != MAGIC[1] || data[2] != MAGIC[2] || data[3]
            != MAGIC[3] {
            assert(buf.subrange(0, 4) != magic()) by {
                let head = buf.subrange(0, 4);
                assert(head[0] == buf[0] && head[1] == buf[1] && head[2] == buf[2] && head[3]
                    == buf[3]);
            }
            return Err(ProtocolError::InvalidMagic);
        }
        assert(buf.subrange(0, 4) =~= magic());

        let payload_len_u32 = read_u32(data, LENGTH_OFFSET);
        let payload_len = payload_len_u32 as usize;

        if payload_len > MAX_FRAME_SIZE {
            return Err(ProtocolError::FrameTooLarge);
        }
        let total_size = HEADER_SIZE + payload_len + CRC_LEN;
        if data.len() < total_size {
            return Ok(None);
        }
        let version = data[VERSION_OFFSET];
        let flags = data[FLAGS_OFFSET];
        let payload_start = HEADER_SIZE;
        let payload_end = HEADER_SIZE + payload_len;

        let incoming_crc = read_u32(data, payload_end);
        let body = vstd::slice::slice_subrange(data, payload_start, payload_end);
        let computed_crc = Self::calculate_crc(version, flags, body);

        if incoming_crc != computed_crc {
            return Err(ProtocolError::IntegrityCheckFailed);
        }
        if version != SUPPORTED_VERSION {
            return Err(ProtocolError::UnsupportedVersion(version));
        }
        buffer_advance(src, HEADER_SIZE);
        let payload = src.split_to(payload_len).freeze();
        buffer_advance(src, CRC_LEN);

        let frame = Frame { version, flags, payload };
        proof {
            let rest = buffer_contents(*src);
            assert(frame@.payload =~= buf.subrange(10, 10 + payload_len));
            assert(rest =~= buf.subrange(total_size as int, buf.len() as int));
            lemma_be_bytes_of_value(buf.subrange(6, 10));
            lemma_be_bytes_of_value(buf.subrange(10 + payload_len, 14 + payload_len));
            assert(buf =~= frame@.encoded() + rest);
        }
        Ok(Some(frame))
    }

    /// Appends the frame's wire form to `dst`. This cannot fail: what makes a
    /// frame unfit for the wire is refused when the frame is made.
    pub fn encode(&self, dst: &mut BytesMut) -> (r: Result<(), ProtocolError>)
        requires
            buffer_contents(*old(dst)).len() + HEADER_SIZE + self@.payload.len() + CRC_LEN
                <= isize::MAX,
        ensures
            r is Ok,
            buffer_contents(*final(dst)) == buffer_contents(*old(dst)) + self@.encoded(),
    {
        proof {
            use_type_invariant(self);
        }
        let ghost before = buffer_contents(*dst);
        let payload = bytes_as_slice(&self.payload);
        let payload_len = payload.len();
        dst.reserve(HEADER_SIZE + payload_len + CRC_LEN);

        buffer_put_slice(dst, MAGIC.as_slice());
        buffer_put_u8(dst, self.version);
        buffer_put_u8(dst, self.flags);
        buffer_put_u32(dst, payload_len as u32);

        dst.extend_from_slice(payload);

        let crc = Self::calculate_crc(self.version, self.flags, payload);
        buffer_put_u32(dst, crc);

        assert(buffer_contents(*dst) =~= before + self@.encoded());
        Ok(())
    }

}

/// Four bytes are the big-endian spelling of the number they spell.
proof fn lemma_be_bytes_of_value(b: Seq<u8>)
    requires
        b.len() == 4,
    ensures
        0 <= be_value(b) <= u32::MAX,
        be_bytes(be_value(b) as u32) =~= b,
{
    lemma_be_digits(b[0] as int, b[1] as int, b[2] as int, b[3] as int);
}

/// A `u32` is the number that its big-endian bytes spell.
proof fn lemma_value_of_be_bytes(n: u32)
    ensures
        be_bytes(n).len() == 4,
        be_value(be_bytes(n)) == n,
{
    let v = n as int;
    assert(v == (v / 0x100) * 0x100 + v % 0x100) by (nonlinear_arith);
    let mid = v / 0x100;
    assert(mid == (mid / 0x100) * 0x100 + mid % 0x100) by (nonlinear_arith);
    let hi = mid / 0x100;
    assert(hi == (hi / 0x100) * 0x100 + hi % 0x100) by (nonlinear_arith);
    assert(hi == v / 0x1_0000) by (nonlinear_arith)
        requires
            mid == v / 0x100,
            hi == mid / 0x100,
    ;
    assert(hi / 0x100 == v / 0x100_0000) by (nonlinear_arith)
        requires
            hi == v / 0x1_0000,
    ;
    assert(0 <= v / 0x100_0000 < 0x100) by (nonlinear_arith)
        requires
            0 <= v <= 0xffff_ffff,
    ;
}

/// The parts of an encoded frame, by position.
proof fn lemma_encoded_layout(f: FrameView)
    requires
        f.payload.len() <= MAX_FRAME_SIZE,
    ensures
        f.encoded().len() == HEADER_SIZE + f.payload.len() + CRC_LEN,
        f.encoded().subrange(0, 4) == magic(),
        f.encoded()[4] == f.version,
        f.encoded()[5] == f.flags,
        f.encoded().subrange(6, 10) == be_bytes(f.payload.len() as u32),
        f.encoded().subrange(10, 10 + f.payload.len() as int) == f.payload,
        f.encoded().subrange(10 + f.payload.len() as int, 14 + f.payload.len() as int)
            == be_bytes(crc32(f.checked_bytes())),
{
    let e = f.encoded();
    let n = f.payload.len() as int;
    assert(e.len() == 14 + n);
    assert(e.subrange(0, 4) =~= magic());
    assert(e.subrange(6, 10) =~= be_bytes(f.payload.len() as u32));
    assert(e.subrange(10, 10 + n) =~= f.payload);
    assert(e.subrange(10 + n, 14 + n) =~= be_bytes(crc32(f.checked_bytes())));
}

/// Decoding undoes encoding: a stream that starts with an encoded frame
/// decodes to that frame, whatever follows it.
pub proof fn lemma_decode_encoded(f: FrameView, rest: Seq<u8>)
    requires
        f.valid(),
    ensures
        decode_spec(f.encoded() + rest) == Ok::<Option<FrameView>, ProtocolError>(Some(f)),
{
    let e = f.encoded();
    let buf = e + rest;
    let n = f.payload.len() as int;
    lemma_encoded_layout(f);
    lemma_value_of_be_bytes(f.payload.len() as u32);
    lemma_value_of_be_bytes(crc32(f.checked_bytes()));
    assert(buf.subrange(0, 4) =~= e.subrange(0, 4));
    assert(buf.subrange(6, 10) =~= e.subrange(6, 10));
    assert(buf.subrange(10, 10 + n) =~= e.subrange(10, 10 + n));
    assert(buf.subrange(10 + n, 14 + n) =~= e.subrange(10 + n, 14 + n));
    assert(buf[4] == e[4] && buf[5] == e[5]);
}

/// No proper prefix of an encoded frame decodes to a frame or to an error:
/// a decoder fed byte by byte keeps asking for more until the last byte.
pub proof fn lemma_prefix_needs_more(f: FrameView, k: int)
    requires
        f.valid(),
        0 <= k < f.encoded().len(),
    ensures
        decode_spec(f.encoded().subrange(0, k)) == Ok::<Option<FrameView>, ProtocolError>(None),
{
    let e = f.encoded();
    let buf = e.subrange(0, k);
    lemma_encoded_layout(f);
    lemma_value_of_be_bytes(f.payload.len() as u32);
    if k >= 10 {
        assert(buf.subrange(0, 4) =~= e.subrange(0, 4));
        assert(buf.subrange(6, 10) =~= e.subrange(6, 10));
    }
}

/// A change to any one byte of the trailer is caught: the altered stream
/// fails to decode, with an integrity error.
pub proof fn lemma_trailer_change_detected(f: FrameView, i: int, b: u8)
    requires
        f.valid(),
        f.encoded().len() - CRC_LEN <= i < f.encoded().len(),
        b != f.encoded()[i],
    ensures
        decode_spec(f.encoded().update(i, b)) == Err::<Option<FrameView>, ProtocolError>(
            ProtocolError::IntegrityCheckFailed,
        ),
{
    let e = f.encoded();
    let buf = e.update(i, b);
    let n = f.payload.len() as int;
    lemma_encoded_layout(f);
    lemma_value_of_be_bytes(f.payload.len() as u32);
    lemma_value_of_be_bytes(crc32(f.checked_bytes()));
    assert(buf.subrange(0, 4) =~= e.subrange(0, 4));
    assert(buf.subrange(6, 10) =~= e.subrange(6, 10));
    assert(buf.subrange(10, 10 + n) =~= e.subrange(10, 10 + n));
    let stored = buf.subrange(10 + n, 14 + n);
    let intact = e.subrange(10 + n, 14 + n);
    assert(stored[i - 10 - n] == b);
    assert(intact[i - 10 - n] == e[i]);
    lemma_be_bytes_of_value(stored);
    if be_value(stored) == be_value(intact) {
        assert(be_bytes(be_value(stored) as u32) =~= be_bytes(be_value(intact) as u32));
        assert(stored =~= intact);
    }
}

/// A change to one byte of the payload either fails the integrity check or
/// decodes to the altered frame, and the latter only if the altered content
/// has the very checksum of the unchanged one: the decoder never lets a changed
/// payload through unless CRC-32 itself cannot tell the two apart.
pub proof fn lemma_payload_change_outcome(f: FrameView, i: int, b: u8)
    requires
        f.valid(),
        HEADER_SIZE <= i < HEADER_SIZE + f.payload.len(),
        b != f.encoded()[i],
    ensures
        ({
            let altered = FrameView {
                version: f.version,
                flags: f.flags,
                payload: f.payload.update(i - HEADER_SIZE, b),
            };
            decode_spec(f.encoded().update(i, b)) == if crc32(altered.checked_bytes()) == crc32(
                f.checked_bytes(),
            ) {
                Ok::<Option<FrameView>, ProtocolError>(Some(altered))
            } else {
                Err::<Option<FrameView>, ProtocolError>(ProtocolError::IntegrityCheckFailed)
            }
        }),
{
    let e = f.encoded();
    let buf = e.update(i, b);
    let n = f.payload.len() as int;
    lemma_encoded_layout(f);
    lemma_value_of_be_bytes(f.payload.len() as u32);
    lemma_value_of_be_bytes(crc32(f.checked_bytes()));
    assert(buf.subrange(0, 4) =~= e.subrange(0, 4));
    assert(buf.subrange(6, 10) =~= e.subrange(6, 10));
    assert(buf.subrange(10 + n, 14 + n) =~= e.subrange(10 + n, 14 + n));
    assert(buf.subrange(10, 10 + n) =~= f.payload.update(i - 10, b));
    assert(buf[4] == e[4] && buf[5] == e[5]);
}

/// The digits of a number written in base 256 are recovered by division.
proof fn lemma_be_digits(b0: int, b1: int, b2: int, b3: int)
    requires
        0 <= b0 < 0x100,
        0 <= b1 < 0x100,
        0 <= b2 < 0x100,
        0 <= b3 < 0x100,
    ensures
        ({
            let v = b0 * 0x100_0000 + b1 * 0x1_0000 + b2 * 0x100 + b3;
            &&& 0 <= v <= 0xffff_ffff
            &&& v / 0x100_0000 == b0
            &&& v / 0x1_0000 % 0x100 == b1
            &&& v / 0x100 % 0x100 == b2
            &&& v % 0x100 == b3
        }),
{
    let v = b0 * 0x100_0000 + b1 * 0x1_0000 + b2 * 0x100 + b3;
    let hi = b0 * 0x100 + b1;
    let mid = hi * 0x100 + b2;
    assert(v == mid * 0x100 + b3);
    assert(v % 0x100 == b3 && v / 0x100 == mid) by (nonlinear_arith)
        requires
            v == mid * 0x100 + b3,
            0 <= b3 < 0x100,
    ;
    assert(mid % 0x100 == b2 && mid / 0x100 == hi) by (nonlinear_arith)
        requires
            mid == hi * 0x100 + b2,
            0 <= b2 < 0x100,
    ;
    assert(hi % 0x100 == b1 && hi / 0x100 == b0) by (nonlinear_arith)
        requires
            hi == b0 * 0x100 + b1,
            0 <= b1 < 0x100,
    ;
    assert(v / 0x1_0000 == hi) by (nonlinear_arith)
        requires
            v == hi * 0x1_0000 + b2 * 0x100 + b3,
            0 <= b2 * 0x100 + b3 < 0x1_0000,
    ;
    assert(v / 0x100_0000 == b0) by (nonlinear_arith)
        requires
            v == b0 * 0x100_0000 + (b1 * 0x1_0000 + b2 * 0x100 + b3),
            0 <= b1 * 0x1_0000 + b2 * 0x100 + b3 < 0x100_0000,
    ;
}

} // verus!
