//! The byte buffers of the `bytes` crate, as the codecs see them: each holds
//! a sequence of bytes, and each operation that the codecs call is stated
//! over that sequence.

use bytes::{Buf, BufMut, Bytes, BytesMut};
use vstd::prelude::*;

verus! {

#[verifier::external_type_specification]
#[verifier::external_body]
pub struct ExBytesMut(BytesMut);

#[verifier::external_type_specification]
#[verifier::external_body]
pub struct ExBytes(Bytes);

/// The bytes that a growable buffer holds, front to back.
pub uninterp spec fn buf_bytes(b: BytesMut) -> Seq<u8>;

/// The bytes that a frozen buffer holds, front to back.
pub uninterp spec fn frozen_bytes(b: Bytes) -> Seq<u8>;

/// Relies on `<Bytes as Clone>::clone`: the clone holds the same bytes.
pub assume_specification[ <Bytes as Clone>::clone ](b: &Bytes) -> (r: Bytes)
    ensures
        frozen_bytes(r) == frozen_bytes(*b),
;

/// Big-endian encoding of a 16-bit quantity.
pub open spec fn be16(n: nat) -> Seq<u8> {
    seq![(n / 256) as u8, (n % 256) as u8]
}

/// Relies on `<BytesMut as AsRef<[u8]>>::as_ref`: the slice is the buffer's contents.
#[verifier::external_body]
pub(crate) fn buf_slice(b: &BytesMut) -> (r: &[u8])
    ensures
        r@ == buf_bytes(*b),
{
    b.as_ref()
}

/// Relies on `<Bytes as AsRef<[u8]>>::as_ref`: the slice is the buffer's contents.
#[verifier::external_body]
pub(crate) fn frozen_slice(b: &Bytes) -> (r: &[u8])
    ensures
        r@ == frozen_bytes(*b),
{
    b.as_ref()
}

/// Relies on `<BytesMut as Buf>::advance`: drops the first `n` bytes; it
/// panics when `n` exceeds the length.
#[verifier::external_body]
pub(crate) fn buf_advance(b: &mut BytesMut, n: usize)
    requires
        n <= buf_bytes(*old(b)).len(),
    ensures
        buf_bytes(*final(b)) == buf_bytes(*old(b)).skip(n as int),
{
    b.advance(n)
}

/// Relies on `BytesMut::split_to`: the first `at` bytes move to the result,
/// the rest stay; it panics when `at` exceeds the length.
#[verifier::external_body]
pub(crate) fn buf_split_to(b: &mut BytesMut, at: usize) -> (r: BytesMut)
    requires
        at <= buf_bytes(*old(b)).len(),
    ensures
        buf_bytes(r) == buf_bytes(*old(b)).take(at as int),
        buf_bytes(*final(b)) == buf_bytes(*old(b)).skip(at as int),
{
    b.split_to(at)
}

/// Relies on `BytesMut::freeze`: the frozen buffer holds the same bytes.
#[verifier::external_body]
pub(crate) fn buf_freeze(b: BytesMut) -> (r: Bytes)
    ensures
        frozen_bytes(r) == buf_bytes(b),
{
    b.freeze()
}

/// Relies on `BytesMut::extend_from_slice`: appends the slice, growing the
/// buffer as needed.
#[verifier::external_body]
pub(crate) fn buf_extend(b: &mut BytesMut, s: &[u8])
    requires
        buf_bytes(*old(b)).len() + s@.len() <= isize::MAX,
    ensures
        buf_bytes(*final(b)) == buf_bytes(*old(b)) + s@,
{
    b.extend_from_slice(s)
}

/// Relies on `<BytesMut as BufMut>::put_u8`: appends one byte.
#[verifier::external_body]
pub(crate) fn buf_put_u8(b: &mut BytesMut, n: u8)
    requires
        buf_bytes(*old(b)).len() + 1 <= isize::MAX,
    ensures
        buf_bytes(*final(b)) == buf_bytes(*old(b)).push(n),
{
    b.put_u8(n)
}

/// Relies on `<BytesMut as BufMut>::put_u16`: appends the two bytes of `n`,
/// most significant first.
#[verifier::external_body]
pub(crate) fn buf_put_u16(b: &mut BytesMut, n: u16)
    requires
        buf_bytes(*old(b)).len() + 2 <= isize::MAX,
    ensures
        buf_bytes(*final(b)) == buf_bytes(*old(b)) + be16(n as nat),
{
    b.put_u16(n)
}

} // verus!
