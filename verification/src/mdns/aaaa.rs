//! The AAAA record: an IPv6 address.
use vstd::prelude::*;

use crate::mdns::compression::CompressionMap;
use crate::mdns::packer::{pack_bytes, unpack_bytes};
use crate::mdns::{DnsType, Error};
use crate::text::{append_byte_list, spec_byte_list};
use vstd::string::StringExecFns;

verus! {

/// An AAAA resource record body.
#[derive(Debug, Clone, Copy, PartialEq, Eq, Default)]
pub struct AaaaResource {
    pub aaaa: [u8; 16],
}

impl AaaaResource {
    /// The record type: Aaaa.
    pub fn real_type(&self) -> (t: DnsType)
        ensures
            t == DnsType::Aaaa,
    {
        DnsType::Aaaa
    }

    /// The record's text form: `dnsmessage.AAAAResource{aaaa: `, the address bytes as a list,
    /// then `}`.
    pub fn to_string(&self) -> (r: String)
        ensures
            r@ == "dnsmessage.AAAAResource{aaaa: "@ + spec_byte_list(self.aaaa@) + "}"@,
    {
        let mut s = "dnsmessage.AAAAResource{aaaa: ".to_owned();
        append_byte_list(&mut s, &self.aaaa);
        s.append("}");
        s
    }

    /// Appends the 16 address bytes to `msg`; names are not involved, so the
    /// compression table is left as it is.
    pub fn pack(
        &self,
        msg: Vec<u8>,
        _compression: &mut Option<CompressionMap>,
        _compression_off: usize,
    ) -> (res: Result<Vec<u8>, Error>)
        ensures
            res matches Ok(v) && v@ == msg@ + self.aaaa@,
            *final(_compression) == *old(_compression),
    {
        Ok(pack_bytes(msg, &self.aaaa))
    }

    /// Reads the 16 address bytes at `off` and returns the offset after
    /// them; when the message is too short the record is left as it was.
    pub fn unpack(&mut self, msg: &[u8], off: usize, _length: usize) -> (res: Result<usize, Error>)
        requires
            off + 16 <= usize::MAX,
        ensures
            if off + 16 > msg@.len() {
                &&& res == Err::<usize, Error>(Error::ErrBaseLen)
                &&& *final(self) == *old(self)
            } else {
                &&& res == Ok::<usize, Error>((off + 16) as usize)
                &&& final(self).aaaa@ == msg@.subrange(off as int, off + 16)
            },
    {
        let r = unpack_bytes(msg, off, &mut self.aaaa);
        proof {
            if r is Err {
                assert(self.aaaa =~= old(self).aaaa);
            }
        }
        r
    }
}

/// The bytes that `pack` appends, read back from where they start, are the
/// address, and reading ends right after them.
pub proof fn lemma_aaaa_resource_roundtrip(r: AaaaResource, msg: Seq<u8>)
    ensures
        (msg + r.aaaa@).subrange(msg.len() as int, msg.len() + 16 as int) == r.aaaa@,
        (msg + r.aaaa@).len() == msg.len() + 16,
{
    assert((msg + r.aaaa@).subrange(msg.len() as int, msg.len() + 16 as int) =~= r.aaaa@);
}

} // verus!
