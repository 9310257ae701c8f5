//! Byte buffers: network byte order, and the `bytes` crate's `Bytes` and
//! `BytesMut` as the SCTP code uses them.
use vstd::prelude::*;

use bytes::{Buf, BufMut, Bytes, BytesMut};
use rand::Rng;

verus! {

// ---------------------------------------------------------------------------
// Network byte order
// ---------------------------------------------------------------------------

/// The two bytes of `v` in big-endian order.
pub open spec fn be_u16_bytes(v: u16) -> Seq<u8> {
    seq![(v / 256) as u8, (v % 256) as u8]
}

/// The four bytes of `v` in big-endian order.
pub open spec fn be_u32_bytes(v: u32) -> Seq<u8> {
    seq![(v / 0x100_0000) as u8, ((v / 0x1_0000) % 256) as u8, ((v / 256) % 256) as u8, (v % 256) as u8]
}

/// The number that the first two bytes of `s` spell in big-endian order.
pub open spec fn be_u16_value(s: Seq<u8>) -> u16 {
    (s[0] * 256 + s[1]) as u16
}

/// The number that the first four bytes of `s` spell in big-endian order.
pub open spec fn be_u32_value(s: Seq<u8>) -> u32 {
    (s[0] * 0x100_0000 + s[1] * 0x1_0000 + s[2] * 256 + s[3]) as u32
}

/// Reading back the two bytes of a `u16` gives the number.
pub proof fn lemma_be_u16_roundtrip(v: u16)
    ensures
        be_u16_value(be_u16_bytes(v)) == v,
        be_u16_bytes(v).len() == 2,
{
    let b = be_u16_bytes(v);
    assert(b[0] == v / 256 && b[1] == v % 256);
}

/// Reading back the four bytes of a `u32` gives the number.
pub proof fn lemma_be_u32_roundtrip(v: u32)
    ensures
        be_u32_value(be_u32_bytes(v)) == v,
        be_u32_bytes(v).len() == 4,
{
    let b = be_u32_bytes(v);
    assert(b[0] == v / 0x100_0000 && b[1] == (v / 0x1_0000) % 256 && b[2] == (v / 256) % 256
        && b[3] == v % 256);
    assert((v / 0x100_0000) * 0x100_0000 + ((v / 0x1_0000) % 256) * 0x1_0000 + ((v / 256) % 256)
        * 256 + v % 256 == v) by (nonlinear_arith);
}

/// Writing the bytes that spell a `u16` gives back those bytes.
pub proof fn lemma_be_u16_bytes_of_value(s: Seq<u8>)
    requires
        s.len() == 2,
    ensures
        be_u16_bytes(be_u16_value(s)) == s,
{
    let v = be_u16_value(s);
    assert(v == s[0] * 256 + s[1]);
    assert(be_u16_bytes(v) =~= s);
}

/// Writing the bytes that spell a `u32` gives back those bytes.
pub proof fn lemma_be_u32_bytes_of_value(s: Seq<u8>)
    requires
        s.len() == 4,
    ensures
        be_u32_bytes(be_u32_value(s)) == s,
{
    let (b0, b1, b2, b3) = (s[0] as int, s[1] as int, s[2] as int, s[3] as int);
    let v = b0 * 0x100_0000 + b1 * 0x1_0000 + b2 * 256 + b3;
    assert(0 <= v < 0x1_0000_0000) by (nonlinear_arith)
        requires
            0 <= b0 < 256,
            0 <= b1 < 256,
            0 <= b2 < 256,
            0 <= b3 < 256,
            v == b0 * 0x100_0000 + b1 * 0x1_0000 + b2 * 256 + b3,
    ;
    assert(v / 0x100_0000 == b0 && (v / 0x1_0000) % 256 == b1 && (v / 256) % 256 == b2 && v % 256
        == b3) by (nonlinear_arith)
        requires
            0 <= b0 < 256,
            0 <= b1 < 256,
            0 <= b2 < 256,
            0 <= b3 < 256,
            v == b0 * 0x100_0000 + b1 * 0x1_0000 + b2 * 256 + b3,
    ;
    assert(be_u32_bytes(be_u32_value(s)) =~= s);
}

// ---------------------------------------------------------------------------
// `bytes::Bytes` and `bytes::BytesMut`
// ---------------------------------------------------------------------------

#[verifier::external_type_specification]
#[verifier::external_body]
pub struct ExBytes(Bytes);

#[verifier::external_type_specification]
#[verifier::external_body]
pub struct ExBytesMut(BytesMut);

/// The bytes that a `Bytes` holds, in order.
pub uninterp spec fn bytes_view(b: Bytes) -> Seq<u8>;

/// The bytes that a `BytesMut` holds, in order.
pub uninterp spec fn bytes_mut_view(b: BytesMut) -> Seq<u8>;

/// `Bytes::len`: the number of bytes held.
#[verifier::external_body]
pub fn bytes_len(b: &Bytes) -> (r: usize)
    ensures
        r == bytes_view(*b).len(),
{
    b.len()
}

/// `Bytes` indexing (through its `Deref` to `[u8]`): the byte at `i`.
/// The index panics past the end, so `i` must be in range.
#[verifier::external_body]
pub fn bytes_at(b: &Bytes, i: usize) -> (r: u8)
    requires
        i < bytes_view(*b).len(),
    ensures
        r == bytes_view(*b)[i as int],
{
    b[i]
}

/// `Bytes::slice(begin..end)`: the bytes from `begin` up to `end`.
/// It panics unless `begin <= end <= len`.
#[verifier::external_body]
pub fn bytes_slice(b: &Bytes, begin: usize, end: usize) -> (r: Bytes)
    requires
        begin <= end <= bytes_view(*b).len(),
    ensures
        bytes_view(r) == bytes_view(*b).subrange(begin as int, end as int),
{
    b.slice(begin..end)
}

/// `Buf::get_u32` on `Bytes`: reads four bytes as a big-endian number and
/// advances past them. It panics when fewer than four bytes remain.
#[verifier::external_body]
pub fn bytes_get_u32(b: &mut Bytes) -> (r: u32)
    requires
        bytes_view(*old(b)).len() >= 4,
    ensures
        r == be_u32_value(bytes_view(*old(b))),
        bytes_view(*final(b)) == bytes_view(*old(b)).subrange(4, bytes_view(*old(b)).len() as int),
{
    b.get_u32()
}

/// `BytesMut::new`: an empty buffer.
#[verifier::external_body]
pub fn bytes_mut_new() -> (r: BytesMut)
    ensures
        bytes_mut_view(r) == Seq::<u8>::empty(),
{
    BytesMut::new()
}

/// `BytesMut::len`: the number of bytes held.
#[verifier::external_body]
pub fn bytes_mut_len(b: &BytesMut) -> (r: usize)
    ensures
        r == bytes_mut_view(*b).len(),
{
    b.len()
}

/// `BufMut::put_u8` on `BytesMut`: appends one byte.
#[verifier::external_body]
pub fn bytes_mut_put_u8(b: &mut BytesMut, n: u8)
    ensures
        bytes_mut_view(*final(b)) == bytes_mut_view(*old(b)).push(n),
{
    b.put_u8(n)
}

/// `BufMut::put_u16` on `BytesMut`: appends the two bytes of `n`, big-endian.
#[verifier::external_body]
pub fn bytes_mut_put_u16(b: &mut BytesMut, n: u16)
    ensures
        bytes_mut_view(*final(b)) == bytes_mut_view(*old(b)) + be_u16_bytes(n),
{
    b.put_u16(n)
}

/// `BufMut::put_u32` on `BytesMut`: appends the four bytes of `n`, big-endian.
#[verifier::external_body]
pub fn bytes_mut_put_u32(b: &mut BytesMut, n: u32)
    ensures
        bytes_mut_view(*final(b)) == bytes_mut_view(*old(b)) + be_u32_bytes(n),
{
    b.put_u32(n)
}

/// `Extend<&u8>` for `BytesMut`, fed with a `Bytes`: appends its bytes.
#[verifier::external_body]
pub fn bytes_mut_extend(b: &mut BytesMut, other: &Bytes)
    ensures
        bytes_mut_view(*final(b)) == bytes_mut_view(*old(b)) + bytes_view(*other),
{
    b.extend(other)
}

/// `BytesMut::resize`: truncates to `new_len`, or appends copies of `value`
/// up to `new_len`.
#[verifier::external_body]
pub fn bytes_mut_resize(b: &mut BytesMut, new_len: usize, value: u8)
    ensures
        bytes_mut_view(*final(b)).len() == new_len,
        forall|i: int|
            0 <= i < new_len ==> #[trigger] bytes_mut_view(*final(b))[i] == if i < bytes_mut_view(
                *old(b),
            ).len() {
                bytes_mut_view(*old(b))[i]
            } else {
                value
            },
{
    b.resize(new_len, value)
}

/// `BytesMut::freeze`: the same bytes as an immutable `Bytes`.
#[verifier::external_body]
pub fn bytes_mut_freeze(b: BytesMut) -> (r: Bytes)
    ensures
        bytes_view(r) == bytes_mut_view(b),
{
    b.freeze()
}

/// `rand::rng().fill(..)` over the buffer's bytes: overwrites each byte with a
/// random one. What the bytes become rests on chance; only the length is
/// stated.
#[verifier::external_body]
pub fn bytes_mut_fill_random(b: &mut BytesMut)
    ensures
        bytes_mut_view(*final(b)).len() == bytes_mut_view(*old(b)).len(),
{
    rand::rng().fill(b.as_mut())
}

/// The lower-case hexadecimal digit `d` (below 16).
pub open spec fn spec_hex_digit(d: u8) -> char {
    if d < 10 {
        (d + 48) as char
    } else {
        (d + 87) as char
    }
}

/// How the debug text form of a byte string writes the byte `b`: the usual
/// escapes for newline, carriage return, tab, backslash, double quote and
/// zero; a printable ASCII byte as itself; any other as `\x` and two
/// lower-case hexadecimal digits.
pub open spec fn spec_escaped_byte(b: u8) -> Seq<char> {
    if b == 10 {
        seq!['\\', 'n']
    } else if b == 13 {
        seq!['\\', 'r']
    } else if b == 9 {
        seq!['\\', 't']
    } else if b == 92 || b == 34 {
        seq!['\\', b as char]
    } else if b == 0 {
        seq!['\\', '0']
    } else if 0x20 <= b < 0x7f {
        seq![b as char]
    } else {
        seq!['\\', 'x', spec_hex_digit(b / 16), spec_hex_digit(b % 16)]
    }
}

/// The escapes of the bytes of `s`, one after another.
pub open spec fn spec_escaped_bytes(s: Seq<u8>) -> Seq<char>
    decreases s.len(),
{
    if s.len() == 0 {
        Seq::empty()
    } else {
        spec_escaped_bytes(s.drop_last()) + spec_escaped_byte(s.last())
    }
}

/// The debug text form of the byte string `s`: `b"`, each byte escaped, `"`.
pub open spec fn spec_bytes_debug(s: Seq<u8>) -> Seq<char> {
    seq!['b', '"'] + spec_escaped_bytes(s) + seq!['"']
}

/// `Bytes`'s `Debug` form (`format!("{:?}", b)`): the bytes as a byte string
/// literal, `b"..."`, with the escapes of `spec_escaped_byte`.
#[verifier::external_body]
pub fn bytes_debug_text(b: &Bytes) -> (r: String)
    ensures
        r@ == spec_bytes_debug(bytes_view(*b)),
{
    format!("{:?}", b)
}

} // verus!
