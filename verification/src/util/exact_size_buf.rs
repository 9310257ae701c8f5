//! Buffers that know their exact length.
use vstd::prelude::*;

use bytes::{Bytes, BytesMut};

use crate::buf::{bytes_len, bytes_mut_len, bytes_mut_view, bytes_view};

verus! {

/// A buffer that knows its exact length.
pub trait ExactSizeBuf {
    /// The number of bytes the buffer holds.
    spec fn buf_len(&self) -> nat;

    /// Returns the exact length of the buffer.
    fn len(&self) -> (r: usize)
        ensures
            r == self.buf_len(),
    ;

    /// Returns `true` if the buffer is empty.
    fn is_empty(&self) -> (r: bool)
        ensures
            r == (self.buf_len() == 0),
    {
        self.len() == 0
    }
}

/// `Bytes::is_empty`: whether no bytes are held.
#[verifier::external_body]
fn bytes_is_empty(b: &Bytes) -> (r: bool)
    ensures
        r == (bytes_view(*b).len() == 0),
{
    b.is_empty()
}

/// `BytesMut::is_empty`: whether no bytes are held.
#[verifier::external_body]
fn bytes_mut_is_empty(b: &BytesMut) -> (r: bool)
    ensures
        r == (bytes_mut_view(*b).len() == 0),
{
    b.is_empty()
}

impl ExactSizeBuf for Bytes {
    open spec fn buf_len(&self) -> nat {
        bytes_view(*self).len()
    }

    fn len(&self) -> (r: usize) {
        bytes_len(self)
    }

    fn is_empty(&self) -> (r: bool) {
        bytes_is_empty(self)
    }
}

impl ExactSizeBuf for BytesMut {
    open spec fn buf_len(&self) -> nat {
        bytes_mut_view(*self).len()
    }

    fn len(&self) -> (r: usize) {
        bytes_mut_len(self)
    }

    fn is_empty(&self) -> (r: bool) {
        bytes_mut_is_empty(self)
    }
}

impl ExactSizeBuf for [u8] {
    open spec fn buf_len(&self) -> nat {
        self@.len()
    }

    fn len(&self) -> (r: usize) {
        <[u8]>::len(self)
    }

    fn is_empty(&self) -> (r: bool) {
        <[u8]>::is_empty(self)
    }
}

} // verus!
