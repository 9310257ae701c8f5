//! The SRV record (RFC 2782): priority, weight and port, each a big-endian
//! 16-bit integer, and the target name, which is never compressed.
use vstd::prelude::*;

use crate::buf::{be_u16_bytes, be_u16_value, lemma_be_u16_roundtrip};
use crate::mdns::compression::CompressionMap;
use crate::mdns::name::{
    lemma_name_pack_unpack, lemma_no_underflow_without_table, packed_view, spec_pack_name, spec_unpack_name, Name, NAME_LEN,
};
use crate::mdns::packer::{pack_uint16, unpack_uint16};
use crate::mdns::{DnsType, Error};
use crate::text::{append_decimal, spec_decimal};
use vstd::string::StringExecFns;

verus! {

/// An SRV resource record body.
#[derive(Debug, Clone, Default, PartialEq, Eq)]
pub struct SrvResource {
    pub priority: u16,
    pub weight: u16,
    pub port: u16,
    pub target: Name,
}

/// The three integers of an SRV record on the wire.
pub open spec fn spec_srv_fixed_bytes(priority: u16, weight: u16, port: u16) -> Seq<u8> {
    be_u16_bytes(priority) + be_u16_bytes(weight) + be_u16_bytes(port)
}

/// The big-endian 16-bit integer at `off` in `msg`.
pub open spec fn u16_at(msg: Seq<u8>, off: int) -> u16 {
    be_u16_value(msg.subrange(off, off + 2))
}

impl SrvResource {
    /// The record type: SRV.
    pub fn real_type(&self) -> (t: DnsType)
        ensures
            t == DnsType::Srv,
    {
        DnsType::Srv
    }

    /// The record's text form, with the numbers in decimal:
    /// `dnsmessage.SRVResource{priority: P, weight: W, port: N, target: T}`.
    pub fn to_string(&self) -> (r: String)
        ensures
            r@ == "dnsmessage.SRVResource{priority: "@ + spec_decimal(self.priority as nat)
                + ", weight: "@ + spec_decimal(self.weight as nat) + ", port: "@ + spec_decimal(
                self.port as nat,
            ) + ", target: "@ + self.target.data@ + "}"@,
    {
        let mut s = "dnsmessage.SRVResource{priority: ".to_owned();
        append_decimal(&mut s, self.priority as u64);
        s.append(", weight: ");
        append_decimal(&mut s, self.weight as u64);
        s.append(", port: ");
        append_decimal(&mut s, self.port as u64);
        s.append(", target: ");
        s.append(self.target.data.as_str());
        s.append("}");
        s
    }

    /// Appends priority, weight, port and the target name to `msg`. The
    /// target is written without compression, and the table is not used.
    pub fn pack(
        &self,
        msg: Vec<u8>,
        _compression: &mut Option<CompressionMap>,
        compression_off: usize,
    ) -> (res: Result<Vec<u8>, Error>)
        ensures
            packed_view(res) == spec_pack_name(
                self.target.name_bytes(),
                msg@ + spec_srv_fixed_bytes(self.priority, self.weight, self.port),
                None,
                compression_off as int,
            ).0,
            *final(_compression) == *old(_compression),
    {
        let ghost start = msg@;
        let mut msg = pack_uint16(msg, self.priority);
        msg = pack_uint16(msg, self.weight);
        msg = pack_uint16(msg, self.port);
        assert(msg@ =~= start + spec_srv_fixed_bytes(self.priority, self.weight, self.port));
        let mut no_compression: Option<CompressionMap> = None;
        proof {
            lemma_no_underflow_without_table(self.target.name_bytes(), 0, 0, msg@, compression_off as int);
        }
        self.target.pack(msg, &mut no_compression, compression_off)
    }

    /// Reads priority, weight and port at `off`, then the target name, which
    /// must not be compressed, and returns where the message goes on. Each
    /// integer is stored as soon as it is read, so a failure part way leaves
    /// the ones read before it stored; the target is stored only when it is
    /// read in full.
    pub fn unpack(&mut self, msg: &[u8], off: usize, _length: usize) -> (res: Result<usize, Error>)
        requires
            off + 2 <= usize::MAX,
            off + 2 <= msg@.len() ==> off + 4 <= usize::MAX,
            off + 4 <= msg@.len() ==> off + 6 <= usize::MAX,
        ensures
            if off + 2 > msg@.len() {
                &&& res == Err::<usize, Error>(Error::ErrBaseLen)
                &&& *final(self) == *old(self)
            } else if off + 4 > msg@.len() {
                &&& res == Err::<usize, Error>(Error::ErrBaseLen)
                &&& *final(self) == (SrvResource { priority: u16_at(msg@, off as int), ..*old(self) })
            } else if off + 6 > msg@.len() {
                &&& res == Err::<usize, Error>(Error::ErrBaseLen)
                &&& *final(self) == (SrvResource {
                    priority: u16_at(msg@, off as int),
                    weight: u16_at(msg@, off + 2),
                    ..*old(self)
                })
            } else {
                &&& final(self).priority == u16_at(msg@, off as int)
                &&& final(self).weight == u16_at(msg@, off + 2)
                &&& final(self).port == u16_at(msg@, off + 4)
                &&& match spec_unpack_name(msg@, off + 6, false) {
                    Ok((bytes, next)) => {
                        &&& res == Ok::<usize, Error>(next as usize)
                        &&& final(self).target.name_bytes() == bytes
                    },
                    Err(e) => {
                        &&& res == Err::<usize, Error>(e)
                        &&& final(self).target == old(self).target
                    },
                }
            },
    {
        let (priority, off) = unpack_uint16(msg, off)?;
        self.priority = priority;

        let (weight, off) = unpack_uint16(msg, off)?;
        self.weight = weight;

        let (port, off) = unpack_uint16(msg, off)?;
        self.port = port;

        let off = self.target.unpack_compressed(msg, off, false)?;

        Ok(off)
    }
}

/// An SRV record whose target is at most 255 bytes and packs reads back as
/// itself: unpacking where `pack` started writing gives the same priority,
/// weight, port and target, and ends where the writing ended.
pub proof fn lemma_srv_pack_unpack(
    priority: u16,
    weight: u16,
    port: u16,
    target: Seq<u8>,
    msg: Seq<u8>,
    off: int,
)
    requires
        vstd::utf8::valid_utf8(target),
        target.len() <= NAME_LEN,
        spec_pack_name(
            target,
            msg + spec_srv_fixed_bytes(priority, weight, port),
            None,
            off,
        ).0 is Ok,
    ensures
        ({
            let out = spec_pack_name(
                target,
                msg + spec_srv_fixed_bytes(priority, weight, port),
                None,
                off,
            ).0->Ok_0;
            let p = msg.len() as int;
            &&& p + 6 <= out.len()
            &&& u16_at(out, p) == priority
            &&& u16_at(out, p + 2) == weight
            &&& u16_at(out, p + 4) == port
            &&& spec_unpack_name(out, p + 6, false) == Ok::<(Seq<u8>, int), Error>(
                (target, out.len() as int),
            )
        }),
{
    let fixed = msg + spec_srv_fixed_bytes(priority, weight, port);
    let out = spec_pack_name(target, fixed, None, off).0->Ok_0;
    let p = msg.len() as int;
    lemma_name_pack_unpack(target, fixed, off, false);
    lemma_be_u16_roundtrip(priority);
    lemma_be_u16_roundtrip(weight);
    lemma_be_u16_roundtrip(port);
    assert(fixed.len() == p + 6);
    assert(out.subrange(p, p + 2) =~= be_u16_bytes(priority)) by {
        assert forall|k: int| 0 <= k < 2 implies out.subrange(p, p + 2)[k] == be_u16_bytes(
            priority,
        )[k] by {
            assert(out[p + k] == out.subrange(0, fixed.len() as int)[p + k]);
        }
    }
    assert(out.subrange(p + 2, p + 4) =~= be_u16_bytes(weight)) by {
        assert forall|k: int| 0 <= k < 2 implies out.subrange(p + 2, p + 4)[k] == be_u16_bytes(
            weight,
        )[k] by {
            assert(out[p + 2 + k] == out.subrange(0, fixed.len() as int)[p + 2 + k]);
        }
    }
    assert(out.subrange(p + 4, p + 6) =~= be_u16_bytes(port)) by {
        assert forall|k: int| 0 <= k < 2 implies out.subrange(p + 4, p + 6)[k] == be_u16_bytes(
            port,
        )[k] by {
            assert(out[p + 4 + k] == out.subrange(0, fixed.len() as int)[p + 4 + k]);
        }
    }
}

} // verus!
