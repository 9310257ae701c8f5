//! The four-byte header that starts every SCTP parameter:
//! type (2 bytes) and length (2 bytes, header included), both big-endian.
use vstd::prelude::*;

use bytes::{Bytes, BytesMut};

use crate::buf::{
    be_u16_bytes, be_u16_value, bytes_at, bytes_len, bytes_mut_len, bytes_mut_put_u16,
    bytes_mut_view, bytes_view, lemma_be_u16_roundtrip,
};
use crate::sctp::param_type::{spec_param_type_code, spec_param_type_from_code, ParamType};
use crate::sctp::Error;

verus! {

/// The size of a parameter header in bytes.
pub const PARAM_HEADER_LENGTH: usize = 4;

/// A parameter header, with the length of the value that follows it (the
/// length field on the wire is four more).
#[derive(Debug, Clone, Copy, PartialEq, Eq, Structural)]
pub struct ParamHeader {
    pub typ: ParamType,
    pub value_length: u16,
}

/// What the parameter header at the start of `raw` is, or why it is refused.
pub open spec fn spec_parse_param_header(raw: Seq<u8>) -> Result<ParamHeader, Error> {
    if raw.len() < PARAM_HEADER_LENGTH {
        Err(Error::ErrParamHeaderTooShort)
    } else {
        let len = be_u16_value(raw.subrange(2, 4));
        if len < PARAM_HEADER_LENGTH || raw.len() < len {
            Err(Error::ErrParamHeaderTooShort)
        } else {
            Ok(
                ParamHeader {
                    typ: spec_param_type_from_code(be_u16_value(raw.subrange(0, 2))),
                    value_length: (len - PARAM_HEADER_LENGTH) as u16,
                },
            )
        }
    }
}

/// The four bytes of a parameter header on the wire.
pub open spec fn spec_param_header_bytes(h: ParamHeader) -> Seq<u8> {
    be_u16_bytes(spec_param_type_code(h.typ)) + be_u16_bytes(
        (h.value_length + PARAM_HEADER_LENGTH) as u16,
    )
}

impl ParamHeader {
    /// The length of the value that follows the header.
    pub fn value_length(&self) -> (r: usize)
        ensures
            r == self.value_length,
    {
        self.value_length as usize
    }

    /// Reads the parameter header at the start of `raw`.
    pub fn unmarshal(raw: &Bytes) -> (res: Result<ParamHeader, Error>)
        ensures
            res == spec_parse_param_header(bytes_view(*raw)),
    {
        let raw_len = bytes_len(raw);
        if raw_len < PARAM_HEADER_LENGTH {
            return Err(Error::ErrParamHeaderTooShort);
        }
        let code: u16 = bytes_at(raw, 0) as u16 * 256 + bytes_at(raw, 1) as u16;
        let typ = ParamType::from(code);
        let len: usize = bytes_at(raw, 2) as usize * 256 + bytes_at(raw, 3) as usize;
        if len < PARAM_HEADER_LENGTH || raw_len < len {
            return Err(Error::ErrParamHeaderTooShort);
        }
        Ok(ParamHeader { typ, value_length: (len - PARAM_HEADER_LENGTH) as u16 })
    }

    /// Appends the header's four bytes to `writer` and returns the writer's
    /// new length. The length field is the value length plus four, so the
    /// value length can be at most 65531.
    pub fn marshal_to(&self, writer: &mut BytesMut) -> (res: Result<usize, Error>)
        requires
            self.value_length + PARAM_HEADER_LENGTH <= u16::MAX,
        ensures
            bytes_mut_view(*final(writer)) == bytes_mut_view(*old(writer))
                + spec_param_header_bytes(*self),
            res == Ok::<usize, Error>(bytes_mut_view(*final(writer)).len() as usize),
    {
        bytes_mut_put_u16(writer, u16::from(self.typ));
        bytes_mut_put_u16(writer, self.value_length + PARAM_HEADER_LENGTH as u16);
        assert(bytes_mut_view(*writer) =~= bytes_mut_view(*old(writer)) + spec_param_header_bytes(
            *self,
        ));
        Ok(bytes_mut_len(writer))
    }
}

/// A parameter made of `h`'s header bytes and then at least as many bytes as
/// `h` says reads back as `h`, as long as its type reads back as itself.
pub proof fn lemma_param_header_roundtrip(h: ParamHeader, rest: Seq<u8>)
    requires
        h.value_length + PARAM_HEADER_LENGTH <= u16::MAX,
        rest.len() >= h.value_length,
        spec_param_type_from_code(spec_param_type_code(h.typ)) == h.typ,
    ensures
        spec_parse_param_header(spec_param_header_bytes(h) + rest) == Ok::<ParamHeader, Error>(h),
{
    let raw = spec_param_header_bytes(h) + rest;
    let code = spec_param_type_code(h.typ);
    let n = (h.value_length + PARAM_HEADER_LENGTH) as u16;
    lemma_be_u16_roundtrip(code);
    lemma_be_u16_roundtrip(n);
    assert(raw.subrange(0, 2) =~= be_u16_bytes(code));
    assert(raw.subrange(2, 4) =~= be_u16_bytes(n));
}

/// The value bytes of the parameter at the start of `raw`, as its header
/// gives their length.
pub open spec fn spec_param_value(raw: Seq<u8>, h: ParamHeader) -> Seq<u8> {
    raw.subrange(PARAM_HEADER_LENGTH as int, PARAM_HEADER_LENGTH + h.value_length)
}

/// The bytes of a parameter of type `typ` that carries `value`: the header
/// (whose length field is the value's length, cut to 16 bits, plus four) and
/// the value.
pub open spec fn spec_param_bytes(typ: ParamType, value: Seq<u8>) -> Seq<u8> {
    spec_param_header_bytes(ParamHeader { typ, value_length: value.len() as u16 }) + value
}

/// A parameter of a known type, or of an unknown code that no known type has,
/// whose value fits the length field, reads back from its own bytes: the same
/// type and the same value.
pub proof fn lemma_param_roundtrip(typ: ParamType, value: Seq<u8>)
    requires
        value.len() + PARAM_HEADER_LENGTH <= u16::MAX,
        spec_param_type_from_code(spec_param_type_code(typ)) == typ,
    ensures
        spec_parse_param_header(spec_param_bytes(typ, value)) == Ok::<ParamHeader, Error>(
            ParamHeader { typ, value_length: value.len() as u16 },
        ),
        spec_param_value(
            spec_param_bytes(typ, value),
            ParamHeader { typ, value_length: value.len() as u16 },
        ) == value,
{
    let h = ParamHeader { typ, value_length: value.len() as u16 };
    lemma_param_header_roundtrip(h, value);
    assert(spec_param_value(spec_param_bytes(typ, value), h) =~= value);
}

} // verus!
