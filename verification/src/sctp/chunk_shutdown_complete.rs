//! The SHUTDOWN COMPLETE chunk:
//!
//! ```text
//! 0                   1                   2                   3
//! 0 1 2 3 4 5 6 7 8 9 0 1 2 3 4 5 6 7 8 9 0 1 2 3 4 5 6 7 8 9 0 1
//! +-+-+-+-+-+-+-+-+-+-+-+-+-+-+-+-+-+-+-+-+-+-+-+-+-+-+-+-+-+-+-+-+
//! |   Type = 14   |Reserved     |T|      Length = 4               |
//! +-+-+-+-+-+-+-+-+-+-+-+-+-+-+-+-+-+-+-+-+-+-+-+-+-+-+-+-+-+-+-+-+
//! ```
use vstd::prelude::*;

use bytes::{Bytes, BytesMut};

use crate::buf::{bytes_mut_len, bytes_mut_view, bytes_view};
use crate::sctp::chunk_header::{
    lemma_chunk_header_roundtrip, spec_chunk_header_bytes, spec_parse_chunk_header, ChunkHeader,
    ChunkType, spec_chunk_type_name, CHUNK_HEADER_SIZE, CT_SHUTDOWN_COMPLETE,
};
use crate::sctp::Error;

verus! {

/// A SHUTDOWN COMPLETE chunk: it carries nothing.
#[derive(Debug, Clone, Copy, PartialEq, Eq, Structural, Default)]
pub struct ChunkShutdownComplete;

/// The header that every SHUTDOWN COMPLETE chunk has.
pub open spec fn spec_shutdown_complete_header() -> ChunkHeader {
    ChunkHeader { typ: ChunkType(CT_SHUTDOWN_COMPLETE), flags: 0, value_length: 0 }
}

/// The four bytes of a SHUTDOWN COMPLETE chunk on the wire.
pub open spec fn spec_shutdown_complete_bytes() -> Seq<u8> {
    spec_chunk_header_bytes(spec_shutdown_complete_header())
}

/// What `raw` reads as, or why it is refused: the header must be sound and of
/// type SHUTDOWN COMPLETE; what follows it is not looked at.
pub open spec fn spec_parse_shutdown_complete(raw: Seq<u8>) -> Result<ChunkShutdownComplete, Error> {
    match spec_parse_chunk_header(raw) {
        Err(e) => Err(e),
        Ok(h) => if h.typ.0 != CT_SHUTDOWN_COMPLETE {
            Err(Error::ErrChunkTypeNotShutdownComplete)
        } else {
            Ok(ChunkShutdownComplete)
        },
    }
}

impl ChunkShutdownComplete {
    /// The header of this chunk: type SHUTDOWN COMPLETE, no flags, no value.
    pub fn header(&self) -> (h: ChunkHeader)
        ensures
            h == spec_shutdown_complete_header(),
    {
        ChunkHeader {
            typ: ChunkType(CT_SHUTDOWN_COMPLETE),
            flags: 0,
            value_length: self.value_length() as u16,
        }
    }

    /// The chunk's text form: its header's, which is the name of its type.
    pub fn to_string(&self) -> (r: String)
        ensures
            r@ == spec_chunk_type_name(CT_SHUTDOWN_COMPLETE),
    {
        self.header().to_string()
    }

    /// Reads a SHUTDOWN COMPLETE chunk from `raw`.
    pub fn unmarshal(raw: &Bytes) -> (res: Result<ChunkShutdownComplete, Error>)
        ensures
            res == spec_parse_shutdown_complete(bytes_view(*raw)),
    {
        let header = ChunkHeader::unmarshal(raw)?;
        if header.typ.0 != CT_SHUTDOWN_COMPLETE {
            return Err(Error::ErrChunkTypeNotShutdownComplete);
        }
        Ok(ChunkShutdownComplete)
    }

    /// Appends the chunk's four bytes to `writer` and returns the writer's new
    /// length.
    pub fn marshal_to(&self, writer: &mut BytesMut) -> (res: Result<usize, Error>)
        ensures
            bytes_mut_view(*final(writer)) == bytes_mut_view(*old(writer))
                + spec_shutdown_complete_bytes(),
            res == Ok::<usize, Error>(bytes_mut_view(*final(writer)).len() as usize),
    {
        let _ = self.header().marshal_to(writer)?;
        Ok(bytes_mut_len(writer))
    }

    /// A SHUTDOWN COMPLETE chunk has nothing that could be out of range.
    pub fn check(&self) -> (res: Result<(), Error>)
        ensures
            res is Ok,
    {
        Ok(())
    }

    /// The length of the value: none.
    pub fn value_length(&self) -> (r: usize)
        ensures
            r == 0,
    {
        0
    }
}

/// A SHUTDOWN COMPLETE chunk reads back from its own bytes.
pub proof fn lemma_shutdown_complete_roundtrip()
    ensures
        spec_parse_shutdown_complete(spec_shutdown_complete_bytes()) == Ok::<
            ChunkShutdownComplete,
            Error,
        >(ChunkShutdownComplete),
{
    let raw = spec_shutdown_complete_bytes();
    lemma_chunk_header_roundtrip(spec_shutdown_complete_header(), Seq::empty(), Seq::empty());
    assert(raw =~= raw + Seq::<u8>::empty() + Seq::<u8>::empty());
}

/// Only a SHUTDOWN COMPLETE chunk is read as one: any input whose type byte
/// is another is refused as not a SHUTDOWN COMPLETE chunk, once its header
/// is sound, and every input that is read has that type byte first.
pub proof fn lemma_shutdown_complete_type_only(raw: Seq<u8>)
    ensures
        raw.len() >= CHUNK_HEADER_SIZE && raw[0] != CT_SHUTDOWN_COMPLETE && spec_parse_chunk_header(
            raw,
        ) is Ok ==> spec_parse_shutdown_complete(raw) == Err::<ChunkShutdownComplete, Error>(
            Error::ErrChunkTypeNotShutdownComplete,
        ),
        spec_parse_shutdown_complete(raw) is Ok ==> raw.len() >= CHUNK_HEADER_SIZE && raw[0]
            == CT_SHUTDOWN_COMPLETE,
{
}

} // verus!
