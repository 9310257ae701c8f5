//! The NS record: the name of an authoritative name server.
use vstd::prelude::*;

use crate::mdns::compression::CompressionMap;
use crate::mdns::name::{
    compression_view, packed_view, spec_pack_name, spec_pack_name_underflows, spec_unpack_name,
    Name,
};
use crate::mdns::{DnsType, Error};
use vstd::string::StringExecFns;

verus! {

/// An NS resource record body.
#[derive(Debug, Clone, Default, PartialEq, Eq)]
pub struct NsResource {
    pub ns: Name,
}

impl NsResource {
    /// The record type: Ns.
    pub fn real_type(&self) -> (t: DnsType)
        ensures
            t == DnsType::Ns,
    {
        DnsType::Ns
    }

    /// The record's text form: `dnsmessage.NSResource{NS: ` and the name, then `}`.
    pub fn to_string(&self) -> (r: String)
        ensures
            r@ == "dnsmessage.NSResource{NS: "@ + self.ns.data@ + "}"@,
    {
        let mut s = "dnsmessage.NSResource{NS: ".to_owned();
        s.append(self.ns.data.as_str());
        s.append("}");
        s
    }

    /// Appends the name, compressed against `compression`, to `msg`.
    pub fn pack(
        &self,
        msg: Vec<u8>,
        compression: &mut Option<CompressionMap>,
        compression_off: usize,
    ) -> (res: Result<Vec<u8>, Error>)
        requires
            !spec_pack_name_underflows(
                self.ns.name_bytes(),
                msg@,
                compression_view(*old(compression)),
                compression_off as int,
            ),
        ensures
            ({
                let (r, c) = spec_pack_name(
                    self.ns.name_bytes(),
                    msg@,
                    compression_view(*old(compression)),
                    compression_off as int,
                );
                &&& packed_view(res) == r
                &&& compression_view(*final(compression)) == c
            }),
    {
        self.ns.pack(msg, compression, compression_off)
    }

    /// Reads the name at `off`, following compression pointers, and returns
    /// where the message goes on; the record is kept as it was on failure.
    pub fn unpack(&mut self, msg: &[u8], off: usize, _length: usize) -> (res: Result<usize, Error>)
        ensures
            match spec_unpack_name(msg@, off as int, true) {
                Ok((bytes, next)) => {
                    &&& res == Ok::<usize, Error>(next as usize)
                    &&& final(self).ns.name_bytes() == bytes
                },
                Err(e) => {
                    &&& res == Err::<usize, Error>(e)
                    &&& *final(self) == *old(self)
                },
            },
    {
        self.ns.unpack(msg, off)
    }
}

} // verus!
