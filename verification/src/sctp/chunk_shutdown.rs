//! The SHUTDOWN chunk:
//!
//! ```text
//! 0                   1                   2                   3
//! 0 1 2 3 4 5 6 7 8 9 0 1 2 3 4 5 6 7 8 9 0 1 2 3 4 5 6 7 8 9 0 1
//! +-+-+-+-+-+-+-+-+-+-+-+-+-+-+-+-+-+-+-+-+-+-+-+-+-+-+-+-+-+-+-+-+
//! |   Type = 7    | Chunk  Flags  |      Length = 8               |
//! +-+-+-+-+-+-+-+-+-+-+-+-+-+-+-+-+-+-+-+-+-+-+-+-+-+-+-+-+-+-+-+-+
//! |                      Cumulative TSN Ack                       |
//! +-+-+-+-+-+-+-+-+-+-+-+-+-+-+-+-+-+-+-+-+-+-+-+-+-+-+-+-+-+-+-+-+
//! ```
use vstd::prelude::*;

use bytes::{Bytes, BytesMut};

use crate::buf::{
    be_u32_bytes, be_u32_value, bytes_get_u32, bytes_mut_len, bytes_mut_put_u32, bytes_mut_view,
    bytes_slice, bytes_view, lemma_be_u32_roundtrip,
};
use crate::sctp::chunk_header::{
    lemma_chunk_header_roundtrip, spec_chunk_header_bytes, spec_parse_chunk_header, ChunkHeader,
    ChunkType, spec_chunk_type_name, CHUNK_HEADER_SIZE, CT_SHUTDOWN,
};
use crate::sctp::Error;

verus! {

/// The length of the cumulative TSN ack that a SHUTDOWN chunk carries.
pub const CUMULATIVE_TSN_ACK_LENGTH: usize = 4;

/// A SHUTDOWN chunk.
#[derive(Debug, Clone, Copy, PartialEq, Eq, Structural, Default)]
pub struct ChunkShutdown {
    pub cumulative_tsn_ack: u32,
}

/// The header that every SHUTDOWN chunk has.
pub open spec fn spec_shutdown_header() -> ChunkHeader {
    ChunkHeader {
        typ: ChunkType(CT_SHUTDOWN),
        flags: 0,
        value_length: CUMULATIVE_TSN_ACK_LENGTH as u16,
    }
}

/// The eight bytes of a SHUTDOWN chunk on the wire.
pub open spec fn spec_shutdown_bytes(c: ChunkShutdown) -> Seq<u8> {
    spec_chunk_header_bytes(spec_shutdown_header()) + be_u32_bytes(c.cumulative_tsn_ack)
}

/// What `raw` reads as, or why it is refused: the header must be sound and of
/// type SHUTDOWN, the input exactly eight bytes long, and the length field
/// must leave room for the four-byte ack.
pub open spec fn spec_parse_shutdown(raw: Seq<u8>) -> Result<ChunkShutdown, Error> {
    match spec_parse_chunk_header(raw) {
        Err(e) => Err(e),
        Ok(h) => if h.typ.0 != CT_SHUTDOWN {
            Err(Error::ErrChunkTypeNotShutdown)
        } else if raw.len() != CHUNK_HEADER_SIZE + CUMULATIVE_TSN_ACK_LENGTH
            || h.value_length < CUMULATIVE_TSN_ACK_LENGTH {
            Err(Error::ErrInvalidChunkSize)
        } else {
            Ok(
                ChunkShutdown {
                    cumulative_tsn_ack: be_u32_value(raw.subrange(4, 8)),
                },
            )
        },
    }
}

impl ChunkShutdown {
    /// The header of this chunk: type SHUTDOWN, no flags, a four-byte value.
    pub fn header(&self) -> (h: ChunkHeader)
        ensures
            h == spec_shutdown_header(),
    {
        ChunkHeader {
            typ: ChunkType(CT_SHUTDOWN),
            flags: 0,
            value_length: self.value_length() as u16,
        }
    }

    /// The chunk's text form: its header's, which is the name of its type.
    pub fn to_string(&self) -> (r: String)
        ensures
            r@ == spec_chunk_type_name(CT_SHUTDOWN),
    {
        self.header().to_string()
    }

    /// Reads a SHUTDOWN chunk from `raw`. A length field shorter than the
    /// chunk's eight bytes is refused as an invalid chunk size.
    pub fn unmarshal(raw: &Bytes) -> (res: Result<ChunkShutdown, Error>)
        ensures
            res == spec_parse_shutdown(bytes_view(*raw)),
    {
        let header = ChunkHeader::unmarshal(raw)?;
        if header.typ.0 != CT_SHUTDOWN {
            return Err(Error::ErrChunkTypeNotShutdown);
        }
        if crate::buf::bytes_len(raw) != CHUNK_HEADER_SIZE + CUMULATIVE_TSN_ACK_LENGTH
            || header.value_length() < CUMULATIVE_TSN_ACK_LENGTH {
            return Err(Error::ErrInvalidChunkSize);
        }
        let reader = &mut bytes_slice(
            raw,
            CHUNK_HEADER_SIZE,
            CHUNK_HEADER_SIZE + header.value_length(),
        );
        let cumulative_tsn_ack = bytes_get_u32(reader);
        Ok(ChunkShutdown { cumulative_tsn_ack })
    }

    /// Appends the chunk's eight bytes to `writer` and returns the writer's
    /// new length.
    pub fn marshal_to(&self, writer: &mut BytesMut) -> (res: Result<usize, Error>)
        ensures
            bytes_mut_view(*final(writer)) == bytes_mut_view(*old(writer)) + spec_shutdown_bytes(
                *self,
            ),
            res == Ok::<usize, Error>(bytes_mut_view(*final(writer)).len() as usize),
    {
        let _ = self.header().marshal_to(writer)?;
        bytes_mut_put_u32(writer, self.cumulative_tsn_ack);
        assert(bytes_mut_view(*writer) =~= bytes_mut_view(*old(writer)) + spec_shutdown_bytes(
            *self,
        ));
        Ok(bytes_mut_len(writer))
    }

    /// A SHUTDOWN chunk has nothing that could be out of range.
    pub fn check(&self) -> (res: Result<(), Error>)
        ensures
            res is Ok,
    {
        Ok(())
    }

    /// The length of the value: the four bytes of the ack.
    pub fn value_length(&self) -> (r: usize)
        ensures
            r == CUMULATIVE_TSN_ACK_LENGTH,
    {
        CUMULATIVE_TSN_ACK_LENGTH
    }
}

/// A SHUTDOWN chunk reads back from its own bytes as itself.
pub proof fn lemma_shutdown_roundtrip(c: ChunkShutdown)
    ensures
        spec_parse_shutdown(spec_shutdown_bytes(c)) == Ok::<ChunkShutdown, Error>(c),
{
    let raw = spec_shutdown_bytes(c);
    let value = be_u32_bytes(c.cumulative_tsn_ack);
    lemma_be_u32_roundtrip(c.cumulative_tsn_ack);
    lemma_chunk_header_roundtrip(spec_shutdown_header(), value, Seq::empty());
    assert(raw =~= spec_chunk_header_bytes(spec_shutdown_header()) + value + Seq::<u8>::empty());
    assert(raw.subrange(4, 8) =~= value);
}

/// Only a SHUTDOWN chunk is read as one: any input whose type byte is
/// another is refused as not a SHUTDOWN chunk, once its header is sound, and
/// every input that is read is eight bytes long with that type byte first.
pub proof fn lemma_shutdown_type_only(raw: Seq<u8>)
    ensures
        raw.len() >= CHUNK_HEADER_SIZE && raw[0] != CT_SHUTDOWN && spec_parse_chunk_header(raw) is Ok
            ==> spec_parse_shutdown(raw) == Err::<ChunkShutdown, Error>(
            Error::ErrChunkTypeNotShutdown,
        ),
        spec_parse_shutdown(raw) is Ok ==> raw.len() == 8 && raw[0] == CT_SHUTDOWN,
{
}

} // verus!
