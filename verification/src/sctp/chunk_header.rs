//! The four-byte header that starts every SCTP chunk:
//! type (1 byte), flags (1 byte), length (2 bytes, big-endian, header included).
use vstd::prelude::*;

use bytes::{Bytes, BytesMut};

use crate::buf::{
    be_u16_bytes, be_u16_value, bytes_at, bytes_len, bytes_mut_len, bytes_mut_put_u16, bytes_mut_put_u8,
    bytes_mut_view, bytes_view, lemma_be_u16_roundtrip,
};
use crate::sctp::Error;
use crate::text::{append_decimal, spec_decimal};

verus! {

/// The size of a chunk header in bytes.
pub const CHUNK_HEADER_SIZE: usize = 4;

/// The type of a DATA chunk.
pub const CT_PAYLOAD_DATA: u8 = 0;

/// The type of an INIT chunk.
pub const CT_INIT: u8 = 1;

/// The type of an INIT ACK chunk.
pub const CT_INIT_ACK: u8 = 2;

/// The type of a SACK chunk.
pub const CT_SACK: u8 = 3;

/// The type of a HEARTBEAT chunk.
pub const CT_HEARTBEAT: u8 = 4;

/// The type of a HEARTBEAT ACK chunk.
pub const CT_HEARTBEAT_ACK: u8 = 5;

/// The type of an ABORT chunk.
pub const CT_ABORT: u8 = 6;

/// The type of a SHUTDOWN chunk.
pub const CT_SHUTDOWN: u8 = 7;

/// The type of a SHUTDOWN ACK chunk.
pub const CT_SHUTDOWN_ACK: u8 = 8;

/// The type of an ERROR chunk.
pub const CT_ERROR: u8 = 9;

/// The type of a COOKIE ECHO chunk.
pub const CT_COOKIE_ECHO: u8 = 10;

/// The type of a COOKIE ACK chunk.
pub const CT_COOKIE_ACK: u8 = 11;

/// The type of a CWR chunk.
pub const CT_CWR: u8 = 13;

/// The type of a SHUTDOWN COMPLETE chunk.
pub const CT_SHUTDOWN_COMPLETE: u8 = 14;

/// The type of a RE-CONFIG chunk.
pub const CT_RECONFIG: u8 = 130;

/// The type of a FORWARD TSN chunk.
pub const CT_FORWARD_TSN: u8 = 192;

/// The type byte of a chunk.
#[derive(Debug, Clone, Copy, PartialEq, Eq, Structural)]
pub struct ChunkType(pub u8);

/// The name of a chunk type, or `"Unknown ChunkType: "` and its number.
pub open spec fn spec_chunk_type_name(t: u8) -> Seq<char> {
    if t == CT_PAYLOAD_DATA {
        "DATA"@
    } else if t == CT_INIT {
        "INIT"@
    } else if t == CT_INIT_ACK {
        "INIT-ACK"@
    } else if t == CT_SACK {
        "SACK"@
    } else if t == CT_HEARTBEAT {
        "HEARTBEAT"@
    } else if t == CT_HEARTBEAT_ACK {
        "HEARTBEAT-ACK"@
    } else if t == CT_ABORT {
        "ABORT"@
    } else if t == CT_SHUTDOWN_ACK {
        "SHUTDOWN-ACK"@
    } else if t == CT_ERROR {
        "ERROR"@
    } else if t == CT_COOKIE_ECHO {
        "COOKIE-ECHO"@
    } else if t == CT_COOKIE_ACK {
        "COOKIE-ACK"@
    } else if t == CT_CWR {
        "ECNE"@
    } else if t == CT_RECONFIG {
        "RECONFIG"@
    } else if t == CT_FORWARD_TSN {
        "FORWARD-TSN"@
    } else if t == CT_SHUTDOWN {
        "SHUTDOWN"@
    } else if t == CT_SHUTDOWN_COMPLETE {
        "SHUTDOWN-COMPLETE"@
    } else {
        "Unknown ChunkType: "@ + spec_decimal(t as nat)
    }
}

impl ChunkType {
    /// The name of the chunk type, or `"Unknown ChunkType: "` and its number.
    pub fn to_string(&self) -> (r: String)
        ensures
            r@ == spec_chunk_type_name(self.0),
    {
        if self.0 == CT_PAYLOAD_DATA {
            "DATA".to_owned()
        } else if self.0 == CT_INIT {
            "INIT".to_owned()
        } else if self.0 == CT_INIT_ACK {
            "INIT-ACK".to_owned()
        } else if self.0 == CT_SACK {
            "SACK".to_owned()
        } else if self.0 == CT_HEARTBEAT {
            "HEARTBEAT".to_owned()
        } else if self.0 == CT_HEARTBEAT_ACK {
            "HEARTBEAT-ACK".to_owned()
        } else if self.0 == CT_ABORT {
            "ABORT".to_owned()
        } else if self.0 == CT_SHUTDOWN_ACK {
            "SHUTDOWN-ACK".to_owned()
        } else if self.0 == CT_ERROR {
            "ERROR".to_owned()
        } else if self.0 == CT_COOKIE_ECHO {
            "COOKIE-ECHO".to_owned()
        } else if self.0 == CT_COOKIE_ACK {
            "COOKIE-ACK".to_owned()
        } else if self.0 == CT_CWR {
            "ECNE".to_owned()
        } else if self.0 == CT_RECONFIG {
            "RECONFIG".to_owned()
        } else if self.0 == CT_FORWARD_TSN {
            "FORWARD-TSN".to_owned()
        } else if self.0 == CT_SHUTDOWN {
            "SHUTDOWN".to_owned()
        } else if self.0 == CT_SHUTDOWN_COMPLETE {
            "SHUTDOWN-COMPLETE".to_owned()
        } else {
            let mut s = "Unknown ChunkType: ".to_owned();
            append_decimal(&mut s, self.0 as u64);
            s
        }
    }
}

/// A chunk header, with the length of the value that follows it (the length
/// field on the wire is four more).
#[derive(Debug, Clone, Copy, PartialEq, Eq, Structural)]
pub struct ChunkHeader {
    pub typ: ChunkType,
    pub flags: u8,
    pub value_length: u16,
}

/// Every byte of `raw` from `from` on is zero.
pub open spec fn padding_is_zero(raw: Seq<u8>, from: int) -> bool {
    forall|i: int| from <= i < raw.len() ==> raw[i] == 0
}

/// The length field of a chunk whose bytes start `raw`.
pub open spec fn chunk_length_field(raw: Seq<u8>) -> u16 {
    be_u16_value(raw.subrange(2, 4))
}

/// What the header at the start of `raw` is, or why it is refused. The length
/// field counts the header; fewer than four bytes may follow the chunk, as
/// padding, and then they must be zero.
pub open spec fn spec_parse_chunk_header(raw: Seq<u8>) -> Result<ChunkHeader, Error> {
    if raw.len() < CHUNK_HEADER_SIZE {
        Err(Error::ErrChunkHeaderTooSmall)
    } else {
        let length = chunk_length_field(raw);
        if length < CHUNK_HEADER_SIZE || length > raw.len() {
            Err(Error::ErrChunkHeaderInvalidLength)
        } else if raw.len() - length < 4 && !padding_is_zero(raw, length as int) {
            Err(Error::ErrChunkHeaderPaddingNonZero)
        } else {
            Ok(
                ChunkHeader {
                    typ: ChunkType(raw[0]),
                    flags: raw[1],
                    value_length: (length - CHUNK_HEADER_SIZE) as u16,
                },
            )
        }
    }
}

/// The four bytes of a header on the wire.
pub open spec fn spec_chunk_header_bytes(h: ChunkHeader) -> Seq<u8> {
    seq![h.typ.0, h.flags] + be_u16_bytes((h.value_length + CHUNK_HEADER_SIZE) as u16)
}

impl ChunkHeader {
    /// The header's text form: its type's name.
    pub fn to_string(&self) -> (r: String)
        ensures
            r@ == spec_chunk_type_name(self.typ.0),
    {
        self.typ.to_string()
    }

    /// The length of the value that follows the header.
    pub fn value_length(&self) -> (r: usize)
        ensures
            r == self.value_length,
    {
        self.value_length as usize
    }

    /// Reads the header at the start of `raw`.
    pub fn unmarshal(raw: &Bytes) -> (res: Result<ChunkHeader, Error>)
        ensures
            res == spec_parse_chunk_header(bytes_view(*raw)),
    {
        let ghost s = bytes_view(*raw);
        let raw_len = bytes_len(raw);
        if raw_len < CHUNK_HEADER_SIZE {
            return Err(Error::ErrChunkHeaderTooSmall);
        }
        let typ = ChunkType(bytes_at(raw, 0));
        let flags = bytes_at(raw, 1);
        let hi = bytes_at(raw, 2);
        let lo = bytes_at(raw, 3);
        let length: u16 = hi as u16 * 256 + lo as u16;
        assert(length == chunk_length_field(s));
        if length < CHUNK_HEADER_SIZE as u16 || length as usize > raw_len {
            return Err(Error::ErrChunkHeaderInvalidLength);
        }
        if raw_len - (length as usize) < 4 {
            let mut i: usize = length as usize;
            while i < raw_len
                invariant
                    length <= i <= raw_len,
                    CHUNK_HEADER_SIZE <= length,
                    raw_len - length < 4,
                    length == chunk_length_field(s),
                    raw_len == s.len(),
                    s == bytes_view(*raw),
                    forall|j: int| length <= j < i ==> s[j] == 0,
                decreases raw_len - i,
            {
                if bytes_at(raw, i) != 0 {
                    assert(s[i as int] != 0);
                    assert(!padding_is_zero(s, length as int));
                    return Err(Error::ErrChunkHeaderPaddingNonZero);
                }
                i = i + 1;
            }
        }
        Ok(ChunkHeader { typ, flags, value_length: length - CHUNK_HEADER_SIZE as u16 })
    }

    /// Appends the header's four bytes to `writer` and returns the writer's
    /// new length. The length field is the value length plus four, so the
    /// value length can be at most 65531.
    pub fn marshal_to(&self, writer: &mut BytesMut) -> (res: Result<usize, Error>)
        requires
            self.value_length + CHUNK_HEADER_SIZE <= u16::MAX,
        ensures
            bytes_mut_view(*final(writer)) == bytes_mut_view(*old(writer))
                + spec_chunk_header_bytes(*self),
            res == Ok::<usize, Error>(bytes_mut_view(*final(writer)).len() as usize),
    {
        bytes_mut_put_u8(writer, self.typ.0);
        bytes_mut_put_u8(writer, self.flags);
        bytes_mut_put_u16(writer, self.value_length + CHUNK_HEADER_SIZE as u16);
        assert(bytes_mut_view(*writer) =~= bytes_mut_view(*old(writer)) + spec_chunk_header_bytes(
            *self,
        ));
        Ok(bytes_mut_len(writer))
    }
}

/// A chunk made of `h`'s header bytes, then `value` (as long as `h` says),
/// then fewer than four zero bytes of padding, reads back as `h`.
pub proof fn lemma_chunk_header_roundtrip(h: ChunkHeader, value: Seq<u8>, padding: Seq<u8>)
    requires
        h.value_length + CHUNK_HEADER_SIZE <= u16::MAX,
        value.len() == h.value_length,
        padding.len() < 4,
        forall|i: int| 0 <= i < padding.len() ==> padding[i] == 0,
    ensures
        spec_parse_chunk_header(spec_chunk_header_bytes(h) + value + padding) == Ok::<
            ChunkHeader,
            Error,
        >(h),
{
    let raw = spec_chunk_header_bytes(h) + value + padding;
    let n = (h.value_length + CHUNK_HEADER_SIZE) as u16;
    lemma_be_u16_roundtrip(n);
    assert(raw.subrange(2, 4) =~= be_u16_bytes(n));
    assert(chunk_length_field(raw) == n);
    assert forall|i: int| n <= i < raw.len() implies raw[i] == 0 by {
        assert(raw[i] == padding[i - n]);
    }
}

} // verus!
