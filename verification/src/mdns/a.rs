//! The A record: an IPv4 address.
use vstd::prelude::*;

use crate::mdns::compression::CompressionMap;
use crate::mdns::packer::{pack_bytes, unpack_bytes};
use crate::mdns::{DnsType, Error};
use crate::text::{append_byte_list, spec_byte_list};
use vstd::string::StringExecFns;

verus! {

/// An A resource record body.
#[derive(Debug, Clone, Copy, PartialEq, Eq, Default)]
pub struct AResource {
    pub a: [u8; 4],
}

impl AResource {
    /// The record type: A.
    pub fn real_type(&self) -> (t: DnsType)
        ensures
            t == DnsType::A,
    {
        DnsType::A
    }

    /// The record's text form: `dnsmessage.AResource{A: `, the address bytes as a list,
    /// then `}`.
    pub fn to_string(&self) -> (r: String)
        ensures
            r@ == "dnsmessage.AResource{A: "@ + spec_byte_list(self.a@) + "}"@,
    {
        let mut s = "dnsmessage.AResource{A: ".to_owned();
        append_byte_list(&mut s, &self.a);
        s.append("}");
        s
    }

    /// Appends the 4 address bytes to `msg`; names are not involved, so the
    /// compression table is left as it is.
    pub fn pack(
        &self,
        msg: Vec<u8>,
        _compression: &mut Option<CompressionMap>,
        _compression_off: usize,
    ) -> (res: Result<Vec<u8>, Error>)
        ensures
            res matches Ok(v) && v@ == msg@ + self.a@,
            *final(_compression) == *old(_compression),
    {
        Ok(pack_bytes(msg, &self.a))
    }

    /// Reads the 4 address bytes at `off` and returns the offset after
    /// them; when the message is too short the record is left as it was.
    pub fn unpack(&mut self, msg: &[u8], off: usize, _length: usize) -> (res: Result<usize, Error>)
        requires
            off + 4 <= usize::MAX,
        ensures
            if off + 4 > msg@.len() {
                &&& res == Err::<usize, Error>(Error::ErrBaseLen)
                &&& *final(self) == *old(self)
            } else {
                &&& res == Ok::<usize, Error>((off + 4) as usize)
                &&& final(self).a@ == msg@.subrange(off as int, off + 4)
            },
    {
        let r = unpack_bytes(msg, off, &mut self.a);
        proof {
            if r is Err {
                assert(self.a =~= old(self).a);
            }
        }
        r
    }
}

/// The bytes that `pack` appends, read back from where they start, are the
/// address, and reading ends right after them.
pub proof fn lemma_a_resource_roundtrip(r: AResource, msg: Seq<u8>)
    ensures
        (msg + r.a@).subrange(msg.len() as int, msg.len() + 4 as int) == r.a@,
        (msg + r.a@).len() == msg.len() + 4,
{
    assert((msg + r.a@).subrange(msg.len() as int, msg.len() + 4 as int) =~= r.a@);
}

} // verus!
