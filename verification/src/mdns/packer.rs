//! Fixed-size fields of a DNS message: byte strings and big-endian 16-bit
//! integers.
use vstd::prelude::*;

use crate::buf::{be_u16_bytes, be_u16_value};
use crate::mdns::Error;

verus! {

/// The size of a 16-bit integer on the wire.
pub const UINT16LEN: usize = 2;

/// Appends `field` to `msg`.
pub fn pack_bytes(msg: Vec<u8>, field: &[u8]) -> (r: Vec<u8>)
    ensures
        r@ == msg@ + field@,
{
    let ghost start = msg@;
    let mut msg = msg;
    let mut i: usize = 0;
    while i < field.len()
        invariant
            i <= field@.len(),
            msg@ == start + field@.subrange(0, i as int),
        decreases field@.len() - i,
    {
        msg.push(field[i]);
        i = i + 1;
        assert(msg@ =~= start + field@.subrange(0, i as int));
    }
    assert(field@.subrange(0, i as int) =~= field@);
    msg
}

/// Copies the `field.len()` bytes of `msg` from `off` on into `field`, and
/// returns the offset after them; when `msg` is too short, `field` is left as
/// it was.
pub fn unpack_bytes(msg: &[u8], off: usize, field: &mut [u8]) -> (res: Result<usize, Error>)
    requires
        off + old(field)@.len() <= usize::MAX,
    ensures
        if off + old(field)@.len() > msg@.len() {
            &&& res == Err::<usize, Error>(Error::ErrBaseLen)
            &&& final(field)@ == old(field)@
        } else {
            &&& res == Ok::<usize, Error>((off + old(field)@.len()) as usize)
            &&& final(field)@ == msg@.subrange(off as int, off + old(field)@.len())
        },
{
    let len = field.len();
    let new_off = off + len;
    if new_off > msg.len() {
        return Err(Error::ErrBaseLen);
    }
    let mut i: usize = 0;
    while i < len
        invariant
            i <= len,
            len == field@.len(),
            new_off == off + len,
            new_off <= msg@.len(),
            forall|j: int| 0 <= j < i ==> field@[j] == msg@[off + j],
        decreases len - i,
    {
        field[i] = msg[off + i];
        i = i + 1;
    }
    assert(field@ =~= msg@.subrange(off as int, off + len));
    Ok(new_off)
}

/// Appends the two bytes of `field`, big-endian, to `msg`.
pub fn pack_uint16(msg: Vec<u8>, field: u16) -> (r: Vec<u8>)
    ensures
        r@ == msg@ + be_u16_bytes(field),
{
    let ghost start = msg@;
    let mut msg = msg;
    msg.push((field / 256) as u8);
    msg.push((field % 256) as u8);
    assert(msg@ =~= start + be_u16_bytes(field));
    msg
}

/// Reads the big-endian 16-bit integer at `off` and returns it with the
/// offset after it.
pub fn unpack_uint16(msg: &[u8], off: usize) -> (res: Result<(u16, usize), Error>)
    requires
        off + UINT16LEN <= usize::MAX,
    ensures
        if off + UINT16LEN > msg@.len() {
            res == Err::<(u16, usize), Error>(Error::ErrBaseLen)
        } else {
            res == Ok::<(u16, usize), Error>(
                (be_u16_value(msg@.subrange(off as int, off + 2)), (off + UINT16LEN) as usize),
            )
        },
{
    if off + UINT16LEN > msg.len() {
        return Err(Error::ErrBaseLen);
    }
    let v: u16 = msg[off] as u16 * 256 + msg[off + 1] as u16;
    Ok((v, off + UINT16LEN))
}

} // verus!
