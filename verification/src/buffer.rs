//! The byte buffers of the `bytes` crate, as far as the codec uses them.
//!
//! A `Bytes` or `BytesMut` is opaque to the verifier; what it holds is named
//! by [`bytes_contents`] and [`buffer_contents`], and every operation below
//! says what it does to those contents.

use vstd::prelude::*;
use bytes::{Buf, BufMut, Bytes, BytesMut};

verus! {

/// `bytes::Bytes`, an immutable shared byte string.
#[verifier::external_type_specification]
#[verifier::external_body]
pub struct ExBytes(Bytes);

/// `bytes::BytesMut`, a growable byte buffer that is consumed from the front.
#[verifier::external_type_specification]
#[verifier::external_body]
pub struct ExBytesMut(BytesMut);

/// The bytes that a `Bytes` holds.
pub uninterp spec fn bytes_contents(b: Bytes) -> Seq<u8>;

/// The bytes that a `BytesMut` holds, the next one to be read first.
pub uninterp spec fn buffer_contents(b: BytesMut) -> Seq<u8>;

/// `Bytes::len` is the number of bytes held.
pub assume_specification[ Bytes::len ](b: &Bytes) -> (n: usize)
    ensures
        n == bytes_contents(*b).len(),
;

/// `Bytes::new` is an empty `Bytes`.
pub assume_specification[ Bytes::new ]() -> (b: Bytes)
    ensures
        bytes_contents(b) == Seq::<u8>::empty(),
;

/// `Bytes::copy_from_slice` is a `Bytes` with a copy of the slice's bytes.
pub assume_specification[ Bytes::copy_from_slice ](data: &[u8]) -> (b: Bytes)
    ensures
        bytes_contents(b) == data@,
;

/// Cloning a `Bytes` gives a handle to the same bytes.
pub assume_specification[ <Bytes as Clone>::clone ](b: &Bytes) -> (c: Bytes)
    ensures
        bytes_contents(c) == bytes_contents(*b),
;

/// `BytesMut::len` is the number of bytes held.
pub assume_specification[ BytesMut::len ](b: &BytesMut) -> (n: usize)
    ensures
        n == buffer_contents(*b).len(),
;

/// `BytesMut::split_to` hands out the first `at` bytes and keeps the rest.
/// It panics when `at` exceeds the length, which the precondition rules out.
pub assume_specification[ BytesMut::split_to ](b: &mut BytesMut, at: usize) -> (head: BytesMut)
    requires
        at <= buffer_contents(*old(b)).len(),
    ensures
        buffer_contents(head) == buffer_contents(*old(b)).subrange(0, at as int),
        buffer_contents(*final(b)) == buffer_contents(*old(b)).subrange(
            at as int,
            buffer_contents(*old(b)).len() as int,
        ),
;

/// `BytesMut::freeze` turns the buffer into a `Bytes` with the same bytes.
pub assume_specification[ BytesMut::freeze ](b: BytesMut) -> (frozen: Bytes)
    ensures
        bytes_contents(frozen) == buffer_contents(b),
;

/// `BytesMut::reserve` only makes room: the bytes held stay as they are.
/// It panics when the capacity would overflow; the precondition keeps the
/// requested size within what an allocation can be.
pub assume_specification[ BytesMut::reserve ](b: &mut BytesMut, additional: usize)
    requires
        buffer_contents(*old(b)).len() + additional <= isize::MAX,
    ensures
        buffer_contents(*final(b)) == buffer_contents(*old(b)),
;

/// `BytesMut::extend_from_slice` appends `extend`, growing the buffer as needed.
pub assume_specification[ BytesMut::extend_from_slice ](b: &mut BytesMut, extend: &[u8])
    requires
        buffer_contents(*old(b)).len() + extend@.len() <= isize::MAX,
    ensures
        buffer_contents(*final(b)) == buffer_contents(*old(b)) + extend@,
;

/// The bytes of a `Bytes` as a slice, through its `Deref`.
#[verifier::external_body]
pub(crate) fn bytes_as_slice(b: &Bytes) -> (s: &[u8])
    ensures
        s@ == bytes_contents(*b),
{
    b
}

/// The bytes of a `BytesMut` as a slice, through its `Deref`.
#[verifier::external_body]
pub(crate) fn buffer_as_slice(b: &BytesMut) -> (s: &[u8])
    ensures
        s@ == buffer_contents(*b),
{
    b
}

/// `Buf::advance` on a `BytesMut` drops the first `cnt` bytes. It panics when
/// `cnt` exceeds the length, which the precondition rules out.
#[verifier::external_body]
pub(crate) fn buffer_advance(b: &mut BytesMut, cnt: usize)
    requires
        cnt <= buffer_contents(*old(b)).len(),
    ensures
        buffer_contents(*final(b)) == buffer_contents(*old(b)).subrange(
            cnt as int,
            buffer_contents(*old(b)).len() as int,
        ),
{
    b.advance(cnt)
}

/// `BufMut::put_slice` on a `BytesMut` appends `src`.
#[verifier::external_body]
pub(crate) fn buffer_put_slice(b: &mut BytesMut, src: &[u8])
    requires
        buffer_contents(*old(b)).len() + src@.len() <= isize::MAX,
    ensures
        buffer_contents(*final(b)) == buffer_contents(*old(b)) + src@,
{
    b.put_slice(src)
}

/// `BufMut::put_u8` on a `BytesMut` appends one byte.
#[verifier::external_body]
pub(crate) fn buffer_put_u8(b: &mut BytesMut, n: u8)
    requires
        buffer_contents(*old(b)).len() + 1 <= isize::MAX,
    ensures
        buffer_contents(*final(b)) == buffer_contents(*old(b)).push(n),
{
    b.put_u8(n)
}

/// The four bytes of `n`, most significant first.
pub open spec fn be_bytes(n: u32) -> Seq<u8> {
    seq![
        (n / 0x100_0000) as u8,
        (n / 0x1_0000 % 0x100) as u8,
        (n / 0x100 % 0x100) as u8,
        (n % 0x100) as u8,
    ]
}

/// `BufMut::put_u32` on a `BytesMut` appends `n` in big-endian byte order.
#[verifier::external_body]
pub(crate) fn buffer_put_u32(b: &mut BytesMut, n: u32)
    requires
        buffer_contents(*old(b)).len() + 4 <= isize::MAX,
    ensures
        buffer_contents(*final(b)) == buffer_contents(*old(b)) + be_bytes(n),
{
    b.put_u32(n)
}

} // verus!
