//! A chunk of a type that this stack does not interpret: its header and its
//! value are kept as they came.
use vstd::prelude::*;
use vstd::string::StringExecFns;

use bytes::{Bytes, BytesMut};

use crate::buf::{
    bytes_debug_text, spec_bytes_debug,
    bytes_len, bytes_mut_extend, bytes_mut_len, bytes_mut_view, bytes_slice, bytes_view,
};
use crate::sctp::chunk_header::{
    chunk_length_field, lemma_chunk_header_roundtrip, spec_chunk_header_bytes,
    spec_chunk_type_name, spec_parse_chunk_header, ChunkHeader, CHUNK_HEADER_SIZE,
};
use crate::sctp::Error;

verus! {

/// A chunk that is carried without being interpreted.
#[derive(Debug)]
pub struct ChunkUnknown {
    hdr: ChunkHeader,
    value: Bytes,
}

/// The value bytes of the chunk at the start of `raw`, as its header gives
/// their length.
pub open spec fn spec_chunk_value(raw: Seq<u8>, h: ChunkHeader) -> Seq<u8> {
    raw.subrange(CHUNK_HEADER_SIZE as int, CHUNK_HEADER_SIZE + h.value_length)
}

impl ChunkUnknown {
    /// The header holds the length of the value, and a length that fits its
    /// field.
    #[verifier::type_invariant]
    spec fn wf(self) -> bool {
        &&& self.hdr.value_length == bytes_view(self.value).len()
        &&& self.hdr.value_length + CHUNK_HEADER_SIZE <= u16::MAX
    }

    /// The header that came with the chunk.
    pub closed spec fn spec_header(&self) -> ChunkHeader {
        self.hdr
    }

    /// The value bytes that came with the chunk.
    pub closed spec fn spec_value(&self) -> Seq<u8> {
        bytes_view(self.value)
    }

    /// The chunk's text form: `ChunkUnknown( `, its header's text (the name
    /// of its type), a space, the value as the byte string that `Debug`
    /// writes, and ` )`.
    pub fn to_string(&self) -> (r: String)
        ensures
            r@ == "ChunkUnknown( "@ + spec_chunk_type_name(self.spec_header().typ.0) + " "@
                + spec_bytes_debug(self.spec_value()) + " )"@,
    {
        let mut s = "ChunkUnknown( ".to_owned();
        let h = self.hdr.to_string();
        s.append(h.as_str());
        s.append(" ");
        let d = bytes_debug_text(&self.value);
        s.append(d.as_str());
        s.append(" )");
        s
    }

    /// The header that came with the chunk.
    pub fn header(&self) -> (h: ChunkHeader)
        ensures
            h == self.spec_header(),
    {
        self.hdr
    }

    /// An unknown chunk has nothing that could be out of range.
    pub fn check(&self) -> (res: Result<(), Error>)
        ensures
            res is Ok,
    {
        Ok(())
    }

    /// The number of value bytes, which the header gives too.
    pub fn value_length(&self) -> (r: usize)
        ensures
            r == self.spec_value().len(),
            r == self.spec_header().value_length,
            r + CHUNK_HEADER_SIZE <= u16::MAX,
    {
        proof {
            use_type_invariant(self);
        }
        bytes_len(&self.value)
    }

    /// Appends the header and the value to `buf` and returns the buffer's new
    /// length.
    pub fn marshal_to(&self, buf: &mut BytesMut) -> (res: Result<usize, Error>)
        ensures
            bytes_mut_view(*final(buf)) == bytes_mut_view(*old(buf)) + spec_chunk_header_bytes(
                self.spec_header(),
            ) + self.spec_value(),
            res == Ok::<usize, Error>(bytes_mut_view(*final(buf)).len() as usize),
    {
        proof {
            use_type_invariant(self);
        }
        let _ = self.header().marshal_to(buf)?;
        bytes_mut_extend(buf, &self.value);
        Ok(bytes_mut_len(buf))
    }

    /// Reads the chunk at the start of `raw`, whatever its type: the header,
    /// and the value bytes that its length field covers.
    pub fn unmarshal(raw: &Bytes) -> (res: Result<ChunkUnknown, Error>)
        ensures
            match spec_parse_chunk_header(bytes_view(*raw)) {
                Err(e) => res == Err::<ChunkUnknown, Error>(e),
                Ok(h) => res matches Ok(c) && c.spec_header() == h && c.spec_value()
                    == spec_chunk_value(bytes_view(*raw), h),
            },
    {
        let header = ChunkHeader::unmarshal(raw)?;
        let len = header.value_length();
        let value = bytes_slice(raw, CHUNK_HEADER_SIZE, CHUNK_HEADER_SIZE + len);
        Ok(ChunkUnknown { hdr: header, value })
    }
}

/// An unknown chunk (a header and a value of the length it gives) reads back
/// from its own bytes as itself, followed by fewer than four zero bytes of
/// padding or by none.
pub proof fn lemma_unknown_roundtrip(h: ChunkHeader, value: Seq<u8>, padding: Seq<u8>)
    requires
        h.value_length == value.len(),
        h.value_length + CHUNK_HEADER_SIZE <= u16::MAX,
        padding.len() < 4,
        forall|i: int| 0 <= i < padding.len() ==> padding[i] == 0,
    ensures
        ({
            let raw = spec_chunk_header_bytes(h) + value + padding;
            &&& spec_parse_chunk_header(raw) == Ok::<ChunkHeader, Error>(h)
            &&& spec_chunk_value(raw, h) == value
        }),
{
    let raw = spec_chunk_header_bytes(h) + value + padding;
    lemma_chunk_header_roundtrip(h, value, padding);
    assert(spec_chunk_value(raw, h) =~= value);
}

/// What an unknown chunk read from `raw` writes back is the chunk as `raw`
/// holds it, without the padding after it.
pub proof fn lemma_unknown_rewrites_input(raw: Seq<u8>, h: ChunkHeader)
    requires
        spec_parse_chunk_header(raw) == Ok::<ChunkHeader, Error>(h),
    ensures
        spec_chunk_header_bytes(h) + spec_chunk_value(raw, h) == raw.subrange(
            0,
            CHUNK_HEADER_SIZE + h.value_length,
        ),
{
    let n = chunk_length_field(raw);
    crate::buf::lemma_be_u16_bytes_of_value(raw.subrange(2, 4));
    assert(n == h.value_length + CHUNK_HEADER_SIZE);
    assert(spec_chunk_header_bytes(h) + spec_chunk_value(raw, h) =~= raw.subrange(
        0,
        CHUNK_HEADER_SIZE + h.value_length,
    ));
}

} // verus!
