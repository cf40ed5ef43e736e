//! Big-endian byte layouts, and the buffer and reader primitives of the
//! `bytes` and `byteorder` crates that the codec is built on.
use vstd::prelude::*;

verus! {

/// Largest buffer the codec builds (1 GiB less one byte). A buffer grows by
/// at most doubling its capacity, so below this bound it never asks for more
/// than an allocation may hold (`isize::MAX` bytes, on any target).
pub const MAX_MESSAGE_LEN: usize = 0x3fff_ffff;

pub open spec fn buf_limit() -> nat {
    MAX_MESSAGE_LEN as nat
}

/// Big-endian layout of a 32-bit integer.
pub open spec fn be_u32(v: u32) -> Seq<u8> {
    seq![(v >> 24u32) as u8, (v >> 16u32) as u8, (v >> 8u32) as u8, v as u8]
}

/// Big-endian layout of a 64-bit integer.
pub open spec fn be_u64(v: u64) -> Seq<u8> {
    seq![
        (v >> 56u64) as u8,
        (v >> 48u64) as u8,
        (v >> 40u64) as u8,
        (v >> 32u64) as u8,
        (v >> 24u64) as u8,
        (v >> 16u64) as u8,
        (v >> 8u64) as u8,
        v as u8,
    ]
}

/// Big-endian layout of a signed 64-bit integer (two's complement).
pub open spec fn be_i64(v: i64) -> Seq<u8> {
    be_u64(v as u64)
}

/// The 32-bit integer whose big-endian layout is `s[pos..pos + 4]`.
pub open spec fn u32_at(s: Seq<u8>, pos: int) -> u32
    recommends
        0 <= pos,
        pos + 4 <= s.len(),
{
    ((s[pos] as u32) << 24u32) | ((s[pos + 1] as u32) << 16u32) | ((s[pos + 2] as u32) << 8u32) | (
    s[pos + 3] as u32)
}

/// The 64-bit integer whose big-endian layout is `s[pos..pos + 8]`.
pub open spec fn u64_at(s: Seq<u8>, pos: int) -> u64
    recommends
        0 <= pos,
        pos + 8 <= s.len(),
{
    ((s[pos] as u64) << 56u64) | ((s[pos + 1] as u64) << 48u64) | ((s[pos + 2] as u64) << 40u64) | ((
    s[pos + 3] as u64) << 32u64) | ((s[pos + 4] as u64) << 24u64) | ((s[pos + 5] as u64) << 16u64)
        | ((s[pos + 6] as u64) << 8u64) | (s[pos + 7] as u64)
}

/// Reading back a 32-bit integer where its big-endian layout stands gives it.
pub proof fn lemma_u32_at(s: Seq<u8>, pos: int, v: u32)
    requires
        0 <= pos,
        pos + 4 <= s.len(),
        s.subrange(pos, pos + 4) == be_u32(v),
    ensures
        u32_at(s, pos) == v,
{
    let e = be_u32(v);
    assert(s[pos] == e[0] && s[pos + 1] == e[1] && s[pos + 2] == e[2] && s[pos + 3] == e[3]);
    let (b0, b1, b2, b3) = (s[pos], s[pos + 1], s[pos + 2], s[pos + 3]);
    assert(b0 == (v >> 24u32) as u8 && b1 == (v >> 16u32) as u8 && b2 == (v >> 8u32) as u8 && b3
        == v as u8 ==> ((b0 as u32) << 24u32) | ((b1 as u32) << 16u32) | ((b2 as u32) << 8u32) | (
    b3 as u32) == v) by (bit_vector);
}

/// Reading back a 64-bit integer where its big-endian layout stands gives it.
pub proof fn lemma_u64_at(s: Seq<u8>, pos: int, v: u64)
    requires
        0 <= pos,
        pos + 8 <= s.len(),
        s.subrange(pos, pos + 8) == be_u64(v),
    ensures
        u64_at(s, pos) == v,
{
    let e = be_u64(v);
    assert(s[pos] == e[0] && s[pos + 1] == e[1] && s[pos + 2] == e[2] && s[pos + 3] == e[3] && s[pos
        + 4] == e[4] && s[pos + 5] == e[5] && s[pos + 6] == e[6] && s[pos + 7] == e[7]);
    let (b0, b1, b2, b3, b4, b5, b6, b7) = (
        s[pos],
        s[pos + 1],
        s[pos + 2],
        s[pos + 3],
        s[pos + 4],
        s[pos + 5],
        s[pos + 6],
        s[pos + 7],
    );
    assert(b0 == (v >> 56u64) as u8 && b1 == (v >> 48u64) as u8 && b2 == (v >> 40u64) as u8 && b3
        == (v >> 32u64) as u8 && b4 == (v >> 24u64) as u8 && b5 == (v >> 16u64) as u8 && b6 == (v
        >> 8u64) as u8 && b7 == v as u8 ==> ((b0 as u64) << 56u64) | ((b1 as u64) << 48u64) | ((
    b2 as u64) << 40u64) | ((b3 as u64) << 32u64) | ((b4 as u64) << 24u64) | ((b5 as u64)
        << 16u64) | ((b6 as u64) << 8u64) | (b7 as u64) == v) by (bit_vector);
}

#[verifier::external_type_specification]
#[verifier::external_body]
pub struct ExBytesMut(bytes::BytesMut);

#[verifier::external_type_specification]
#[verifier::external_body]
pub struct ExBytes(bytes::Bytes);

/// What a growable buffer holds.
pub uninterp spec fn buf_seq(b: bytes::BytesMut) -> Seq<u8>;

/// What a frozen buffer holds.
pub uninterp spec fn bytes_seq(b: bytes::Bytes) -> Seq<u8>;

/// Relies on `BytesMut::new`: the new buffer is empty.
#[verifier::external_body]
pub(crate) fn buf_new() -> (r: bytes::BytesMut)
    ensures
        buf_seq(r) == Seq::<u8>::empty(),
{
    bytes::BytesMut::new()
}

/// Relies on `BufMut::put_u8` for `BytesMut`: appends the byte.
#[verifier::external_body]
pub(crate) fn put_u8(b: &mut bytes::BytesMut, v: u8)
    requires
        buf_seq(*old(b)).len() + 1 <= buf_limit(),
    ensures
        buf_seq(*final(b)) == buf_seq(*old(b)).push(v),
{
    bytes::BufMut::put_u8(b, v)
}

/// Relies on `BufMut::put_u32` for `BytesMut`: appends `v` in big-endian order.
#[verifier::external_body]
pub(crate) fn put_u32(b: &mut bytes::BytesMut, v: u32)
    requires
        buf_seq(*old(b)).len() + 4 <= buf_limit(),
    ensures
        buf_seq(*final(b)) == buf_seq(*old(b)) + be_u32(v),
{
    bytes::BufMut::put_u32(b, v)
}

/// Relies on `BufMut::put_u64` for `BytesMut`: appends `v` in big-endian order.
#[verifier::external_body]
pub(crate) fn put_u64(b: &mut bytes::BytesMut, v: u64)
    requires
        buf_seq(*old(b)).len() + 8 <= buf_limit(),
    ensures
        buf_seq(*final(b)) == buf_seq(*old(b)) + be_u64(v),
{
    bytes::BufMut::put_u64(b, v)
}

/// Relies on `BufMut::put_i64` for `BytesMut`: appends `v` in big-endian order.
#[verifier::external_body]
pub(crate) fn put_i64(b: &mut bytes::BytesMut, v: i64)
    requires
        buf_seq(*old(b)).len() + 8 <= buf_limit(),
    ensures
        buf_seq(*final(b)) == buf_seq(*old(b)) + be_i64(v),
{
    bytes::BufMut::put_i64(b, v)
}

/// Relies on `BufMut::put_slice` for `BytesMut`: appends the bytes of `s`.
#[verifier::external_body]
pub(crate) fn put_slice(b: &mut bytes::BytesMut, s: &[u8])
    requires
        buf_seq(*old(b)).len() + s@.len() <= buf_limit(),
    ensures
        buf_seq(*final(b)) == buf_seq(*old(b)) + s@,
{
    bytes::BufMut::put_slice(b, s)
}

/// Relies on `BytesMut::freeze`: the frozen buffer holds the same bytes.
#[verifier::external_body]
pub(crate) fn freeze(b: bytes::BytesMut) -> (r: bytes::Bytes)
    ensures
        bytes_seq(r) == buf_seq(b),
{
    b.freeze()
}

/// Relies on `Bytes`'s `Deref` to `[u8]`: the slice holds the same bytes.
#[verifier::external_body]
pub(crate) fn bytes_as_slice(b: &bytes::Bytes) -> (r: &[u8])
    ensures
        r@ == bytes_seq(*b),
{
    &b[..]
}

/// Relies on `byteorder::BigEndian::read_u32`: reads `s[pos..pos + 4]` as a
/// big-endian integer.
#[verifier::external_body]
pub(crate) fn read_be_u32(s: &[u8], pos: usize) -> (r: u32)
    requires
        pos + 4 <= s@.len(),
    ensures
        r == u32_at(s@, pos as int),
{
    <byteorder::BigEndian as byteorder::ByteOrder>::read_u32(&s[pos..])
}

/// Relies on `byteorder::BigEndian::read_u64`: reads `s[pos..pos + 8]` as a
/// big-endian integer.
#[verifier::external_body]
pub(crate) fn read_be_u64(s: &[u8], pos: usize) -> (r: u64)
    requires
        pos + 8 <= s@.len(),
    ensures
        r == u64_at(s@, pos as int),
{
    <byteorder::BigEndian as byteorder::ByteOrder>::read_u64(&s[pos..])
}

} // verus!
