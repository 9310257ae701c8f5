//! The heartbeat information parameter: opaque bytes that the sender of a HEARTBEAT
//! chunk gets back in the HEARTBEAT ACK.
use vstd::prelude::*;
use vstd::string::StringExecFns;

use bytes::{Bytes, BytesMut};

use crate::buf::{bytes_debug_text, spec_bytes_debug, bytes_len, bytes_mut_extend, bytes_mut_len, bytes_mut_view, bytes_slice, bytes_view};
use crate::sctp::param_header::{
    spec_param_bytes, spec_param_value, spec_parse_param_header,
    ParamHeader, PARAM_HEADER_LENGTH,
};
use crate::sctp::param_type::ParamType;
use crate::sctp::Error;

verus! {

/// A heartbeat information parameter.
#[derive(Debug, PartialEq, Default)]
pub struct ParamHeartbeatInfo {
    pub heartbeat_information: Bytes,
}

impl ParamHeartbeatInfo {
    /// The parameter's text form: `"Heartbeat Info "` (its type's name and a
    /// separator), then the value as the byte string that `Debug` writes.
    pub fn to_string(&self) -> (r: String)
        ensures
            r@ == "Heartbeat Info "@ + spec_bytes_debug(bytes_view(self.heartbeat_information)),
    {
        let mut s = "Heartbeat Info ".to_owned();
        let d = bytes_debug_text(&self.heartbeat_information);
        s.append(d.as_str());
        s
    }

    /// The header of this parameter: its type, and the value's length cut to
    /// 16 bits.
    pub fn header(&self) -> (h: ParamHeader)
        ensures
            h == (ParamHeader {
                typ: ParamType::HeartbeatInfo,
                value_length: bytes_view(self.heartbeat_information).len() as u16,
            }),
    {
        ParamHeader { typ: ParamType::HeartbeatInfo, value_length: self.value_length() as u16 }
    }

    /// Reads the parameter at the start of `raw`: the value bytes that the
    /// header's length covers. The header's type is not compared.
    pub fn unmarshal(raw: &Bytes) -> (res: Result<ParamHeartbeatInfo, Error>)
        ensures
            match spec_parse_param_header(bytes_view(*raw)) {
                Err(e) => res is Err && res->Err_0 == e,
                Ok(h) => res matches Ok(p) && bytes_view(p.heartbeat_information) == spec_param_value(
                    bytes_view(*raw),
                    h,
                ),
            },
    {
        let header = ParamHeader::unmarshal(raw)?;
        let heartbeat_information = bytes_slice(
            raw,
            PARAM_HEADER_LENGTH,
            PARAM_HEADER_LENGTH + header.value_length(),
        );
        Ok(ParamHeartbeatInfo { heartbeat_information })
    }

    /// Appends the header and the value to `buf` and returns the buffer's new
    /// length. The length field is the value's length, cut to 16 bits, plus
    /// four, which must fit in 16 bits.
    pub fn marshal_to(&self, buf: &mut BytesMut) -> (res: Result<usize, Error>)
        requires
            (bytes_view(self.heartbeat_information).len() as u16) + PARAM_HEADER_LENGTH <= u16::MAX,
        ensures
            bytes_mut_view(*final(buf)) == bytes_mut_view(*old(buf)) + spec_param_bytes(
                ParamType::HeartbeatInfo,
                bytes_view(self.heartbeat_information),
            ),
            res == Ok::<usize, Error>(bytes_mut_view(*final(buf)).len() as usize),
    {
        let _ = self.header().marshal_to(buf)?;
        bytes_mut_extend(buf, &self.heartbeat_information);
        assert(bytes_mut_view(*buf) =~= bytes_mut_view(*old(buf)) + spec_param_bytes(
            ParamType::HeartbeatInfo,
            bytes_view(self.heartbeat_information),
        ));
        Ok(bytes_mut_len(buf))
    }

    /// The number of value bytes.
    pub fn value_length(&self) -> (r: usize)
        ensures
            r == bytes_view(self.heartbeat_information).len(),
    {
        bytes_len(&self.heartbeat_information)
    }
}

} // verus!
