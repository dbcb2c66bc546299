//! Owned byte buffers and native-endian integer access.
//!
//! The buffers are `bytes::BytesMut` (written while serializing, split and
//! rejoined without copying) and `bytes::Bytes` (read while deserializing).
//! Integers are read and written through `byteorder::NativeEndian`.
use byteorder::{ByteOrder, NativeEndian};
use bytes::{Bytes, BytesMut};
use vstd::prelude::*;

verus! {

#[verifier::external_type_specification]
#[verifier::external_body]
pub struct ExBytesMut(BytesMut);

#[verifier::external_type_specification]
#[verifier::external_body]
pub struct ExBytes(Bytes);

/// The bytes that a writable buffer holds, in order.
pub uninterp spec fn buf_view(b: BytesMut) -> Seq<u8>;

/// The bytes that a read-only buffer holds, in order.
pub uninterp spec fn frozen_view(b: Bytes) -> Seq<u8>;

/// The native-endian encoding of a `u16`, as `NativeEndian::write_u16` writes it.
pub uninterp spec fn ne_u16(n: u16) -> Seq<u8>;

/// The two bytes of the native-endian encoding of a `u16`.
pub open spec fn u16_bytes(n: u16) -> Seq<u8> {
    Seq::new(2, |i: int| ne_u16(n)[i])
}

/// The native-endian encoding of a `u32`, as `NativeEndian::write_u32` writes it.
pub uninterp spec fn ne_u32(n: u32) -> Seq<u8>;

/// The four bytes of the native-endian encoding of a `u32`.
pub open spec fn u32_bytes(n: u32) -> Seq<u8> {
    Seq::new(4, |i: int| ne_u32(n)[i])
}

/// The native-endian encoding of an `i32`, as `NativeEndian::write_i32` writes it.
pub uninterp spec fn ne_i32(n: i32) -> Seq<u8>;

/// The four bytes of the native-endian encoding of a `i32`.
pub open spec fn i32_bytes(n: i32) -> Seq<u8> {
    Seq::new(4, |i: int| ne_i32(n)[i])
}

/// Relies on `BytesMut::len`: the number of bytes held.
#[verifier::external_body]
pub(crate) fn buf_len(b: &BytesMut) -> (r: usize)
    ensures
        r == buf_view(*b).len(),
{
    b.len()
}

/// Relies on `BytesMut::split_to`: `b` keeps `[at, len)`, the result holds `[0, at)`.
/// It panics only when `at > len`.
#[verifier::external_body]
pub(crate) fn split_to(b: &mut BytesMut, at: usize) -> (r: BytesMut)
    requires
        at <= buf_view(*old(b)).len(),
    ensures
        buf_view(r) == buf_view(*old(b)).take(at as int),
        buf_view(*final(b)) == buf_view(*old(b)).skip(at as int),
{
    b.split_to(at)
}

/// Relies on `BytesMut::split_off`: `b` keeps `[0, at)`, the result holds `[at, len)`.
/// It panics only when `at` exceeds the capacity, which is at least the length.
#[verifier::external_body]
pub(crate) fn split_off(b: &mut BytesMut, at: usize) -> (r: BytesMut)
    requires
        at <= buf_view(*old(b)).len(),
    ensures
        buf_view(*final(b)) == buf_view(*old(b)).take(at as int),
        buf_view(r) == buf_view(*old(b)).skip(at as int),
{
    b.split_off(at)
}

/// Relies on `BytesMut::unsplit`: the bytes of `other` are appended to `b`.
#[verifier::external_body]
pub(crate) fn unsplit(b: &mut BytesMut, other: BytesMut)
    ensures
        buf_view(*final(b)) == buf_view(*old(b)) + buf_view(other),
{
    b.unsplit(other)
}

/// Relies on indexing a `BytesMut` through its slice: byte `i` becomes `v`.
#[verifier::external_body]
pub(crate) fn set_byte(b: &mut BytesMut, i: usize, v: u8)
    requires
        i < buf_view(*old(b)).len(),
    ensures
        buf_view(*final(b)) == buf_view(*old(b)).update(i as int, v),
{
    b[i] = v;
}

/// Relies on `NativeEndian::write_u16` over a buffer of exactly two bytes.
/// Zero is written as zero bytes in either byte order.
#[verifier::external_body]
pub(crate) fn write_u16(b: &mut BytesMut, n: u16)
    requires
        buf_view(*old(b)).len() == 2,
    ensures
        buf_view(*final(b)) == ne_u16(n),
        buf_view(*final(b)) == u16_bytes(n),
        n == 0 ==> buf_view(*final(b)) == seq![0u8, 0u8],
{
    NativeEndian::write_u16(b.as_mut(), n)
}

/// Relies on `NativeEndian::write_u32` over a buffer of exactly four bytes.
/// Zero is written as zero bytes in either byte order.
#[verifier::external_body]
pub(crate) fn write_u32(b: &mut BytesMut, n: u32)
    requires
        buf_view(*old(b)).len() == 4,
    ensures
        buf_view(*final(b)) == ne_u32(n),
        buf_view(*final(b)) == u32_bytes(n),
        n == 0 ==> buf_view(*final(b)) == seq![0u8, 0u8, 0u8, 0u8],
{
    NativeEndian::write_u32(b.as_mut(), n)
}

/// Relies on `NativeEndian::write_i32` over a buffer of exactly four bytes.
/// Zero is written as zero bytes in either byte order.
#[verifier::external_body]
pub(crate) fn write_i32(b: &mut BytesMut, n: i32)
    requires
        buf_view(*old(b)).len() == 4,
    ensures
        buf_view(*final(b)) == ne_i32(n),
        buf_view(*final(b)) == i32_bytes(n),
        n == 0 ==> buf_view(*final(b)) == seq![0u8, 0u8, 0u8, 0u8],
{
    NativeEndian::write_i32(b.as_mut(), n)
}

/// Relies on `Bytes::len`: the number of bytes held.
#[verifier::external_body]
pub(crate) fn frozen_len(b: &Bytes) -> (r: usize)
    ensures
        r == frozen_view(*b).len(),
{
    b.len()
}

/// Relies on `Bytes::slice`: the bytes `[begin, end)`. It panics only when
/// `begin > end` or `end > len`.
#[verifier::external_body]
pub(crate) fn slice(b: &Bytes, begin: usize, end: usize) -> (r: Bytes)
    requires
        begin <= end <= frozen_view(*b).len(),
    ensures
        frozen_view(r) == frozen_view(*b).subrange(begin as int, end as int),
{
    b.slice(begin..end)
}

/// Relies on indexing a `Bytes` through its slice.
#[verifier::external_body]
pub(crate) fn get_byte(b: &Bytes, i: usize) -> (r: u8)
    requires
        i < frozen_view(*b).len(),
    ensures
        r == frozen_view(*b)[i as int],
{
    b[i]
}

/// Relies on `NativeEndian::read_u16` over exactly two bytes: the one `u16`
/// whose native-endian encoding they are.
#[verifier::external_body]
pub(crate) fn read_u16(b: &Bytes) -> (r: u16)
    requires
        frozen_view(*b).len() == 2,
    ensures
        ne_u16(r) == frozen_view(*b),
        u16_bytes(r) == frozen_view(*b),
        forall|x: u16| #[trigger] u16_bytes(x) == frozen_view(*b) ==> x == r,
{
    NativeEndian::read_u16(b.as_ref())
}

/// Relies on `NativeEndian::read_u32` over exactly four bytes: the one `u32`
/// whose native-endian encoding they are.
#[verifier::external_body]
pub(crate) fn read_u32(b: &Bytes) -> (r: u32)
    requires
        frozen_view(*b).len() == 4,
    ensures
        ne_u32(r) == frozen_view(*b),
        u32_bytes(r) == frozen_view(*b),
        forall|x: u32| #[trigger] u32_bytes(x) == frozen_view(*b) ==> x == r,
{
    NativeEndian::read_u32(b.as_ref())
}

/// Relies on `NativeEndian::read_i32` over exactly four bytes: the one `i32`
/// whose native-endian encoding they are.
#[verifier::external_body]
pub(crate) fn read_i32(b: &Bytes) -> (r: i32)
    requires
        frozen_view(*b).len() == 4,
    ensures
        ne_i32(r) == frozen_view(*b),
        i32_bytes(r) == frozen_view(*b),
        forall|x: i32| #[trigger] i32_bytes(x) == frozen_view(*b) ==> x == r,
{
    NativeEndian::read_i32(b.as_ref())
}

} // verus!
