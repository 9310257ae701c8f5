//! The random parameter: the random number that SCTP authentication (RFC 4895) mixes
//! into its keys.
use vstd::prelude::*;
use vstd::string::StringExecFns;

use bytes::{Bytes, BytesMut};

use crate::buf::{bytes_debug_text, spec_bytes_debug, bytes_len, bytes_mut_extend, bytes_mut_len, bytes_mut_view, bytes_slice, bytes_view};
use crate::sctp::param_header::{
    spec_param_bytes, spec_param_value, spec_parse_param_header,
    ParamHeader, PARAM_HEADER_LENGTH,
};
use crate::sctp::param_type::ParamType;
use crate::sctp::Error;

verus! {

/// A random parameter.
#[derive(Debug, PartialEq, Default)]
pub struct ParamRandom {
    pub random_data: Bytes,
}

impl ParamRandom {
    /// The parameter's text form: `"Random "` (its type's name and a
    /// separator), then the value as the byte string that `Debug` writes.
    pub fn to_string(&self) -> (r: String)
        ensures
            r@ == "Random "@ + spec_bytes_debug(bytes_view(self.random_data)),
    {
        let mut s = "Random ".to_owned();
        let d = bytes_debug_text(&self.random_data);
        s.append(d.as_str());
        s
    }

    /// The header of this parameter: its type, and the value's length cut to
    /// 16 bits.
    pub fn header(&self) -> (h: ParamHeader)
        ensures
            h == (ParamHeader {
                typ: ParamType::Random,
                value_length: bytes_view(self.random_data).len() as u16,
            }),
    {
        ParamHeader { typ: ParamType::Random, value_length: self.value_length() as u16 }
    }

    /// Reads the parameter at the start of `raw`: the value bytes that the
    /// header's length covers. The header's type is not compared.
    pub fn unmarshal(raw: &Bytes) -> (res: Result<ParamRandom, Error>)
        ensures
            match spec_parse_param_header(bytes_view(*raw)) {
                Err(e) => res is Err && res->Err_0 == e,
                Ok(h) => res matches Ok(p) && bytes_view(p.random_data) == spec_param_value(
                    bytes_view(*raw),
                    h,
                ),
            },
    {
        let header = ParamHeader::unmarshal(raw)?;
        let random_data = bytes_slice(
            raw,
            PARAM_HEADER_LENGTH,
            PARAM_HEADER_LENGTH + header.value_length(),
        );
        Ok(ParamRandom { random_data })
    }

    /// Appends the header and the value to `buf` and returns the buffer's new
    /// length. The length field is the value's length, cut to 16 bits, plus
    /// four, which must fit in 16 bits.
    pub fn marshal_to(&self, buf: &mut BytesMut) -> (res: Result<usize, Error>)
        requires
            (bytes_view(self.random_data).len() as u16) + PARAM_HEADER_LENGTH <= u16::MAX,
        ensures
            bytes_mut_view(*final(buf)) == bytes_mut_view(*old(buf)) + spec_param_bytes(
                ParamType::Random,
                bytes_view(self.random_data),
            ),
            res == Ok::<usize, Error>(bytes_mut_view(*final(buf)).len() as usize),
    {
        let _ = self.header().marshal_to(buf)?;
        bytes_mut_extend(buf, &self.random_data);
        assert(bytes_mut_view(*buf) =~= bytes_mut_view(*old(buf)) + spec_param_bytes(
            ParamType::Random,
            bytes_view(self.random_data),
        ));
        Ok(bytes_mut_len(buf))
    }

    /// The number of value bytes.
    pub fn value_length(&self) -> (r: usize)
        ensures
            r == bytes_view(self.random_data).len(),
    {
        bytes_len(&self.random_data)
    }
}

} // verus!
