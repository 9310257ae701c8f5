//! The extended master secret extension (RFC 7627): its presence is the
//! whole message, and its body is an empty length field.
use vstd::prelude::*;

use crate::dtls::{Error, ExtensionValue};

verus! {

/// The size of an extension header on the wire: its type and its length.
pub const EXTENSION_USE_EXTENDED_MASTER_SECRET_HEADER_SIZE: usize = 4;

/// The extended master secret extension.
#[derive(Debug, Clone, Copy, PartialEq, Eq, Structural)]
pub struct ExtensionUseExtendedMasterSecret {
    pub supported: bool,
}

/// The bytes of the extension's body: a zero length, big-endian.
pub open spec fn spec_extended_master_secret_bytes() -> Seq<u8> {
    seq![0u8, 0u8]
}

impl ExtensionUseExtendedMasterSecret {
    /// The extension type: use extended master secret.
    pub fn extension_value(&self) -> (v: ExtensionValue)
        ensures
            v == ExtensionValue::UseExtendedMasterSecret,
    {
        ExtensionValue::UseExtendedMasterSecret
    }

    /// The size of the body on the wire.
    pub fn size(&self) -> (r: usize)
        ensures
            r == 2,
    {
        2
    }

    /// Appends the body, a zero 16-bit length, to `writer`.
    pub fn marshal(&self, writer: &mut Vec<u8>) -> (res: Result<(), Error>)
        ensures
            final(writer)@ == old(writer)@ + spec_extended_master_secret_bytes(),
            res is Ok,
    {
        writer.push(0);
        writer.push(0);
        assert(writer@ =~= old(writer)@ + spec_extended_master_secret_bytes());
        Ok(())
    }

    /// Reads the body's 16-bit length, whatever it says, and takes the
    /// extension as present; two bytes must be left in `reader`.
    pub fn unmarshal(reader: &mut &[u8]) -> (res: Result<ExtensionUseExtendedMasterSecret, Error>)
        ensures
            old(reader)@.len() < 2 ==> res == Err::<ExtensionUseExtendedMasterSecret, Error>(
                Error::ErrUnexpectedEof,
            ),
            old(reader)@.len() >= 2 ==> {
                &&& res == Ok::<ExtensionUseExtendedMasterSecret, Error>(
                    ExtensionUseExtendedMasterSecret { supported: true },
                )
                &&& final(reader)@ == old(reader)@.subrange(2, old(reader)@.len() as int)
            },
    {
        let len = reader.len();
        if len < 2 {
            return Err(Error::ErrUnexpectedEof);
        }
        *reader = vstd::slice::slice_subrange(*reader, 2, len);
        Ok(ExtensionUseExtendedMasterSecret { supported: true })
    }
}

/// The body that `marshal` writes is two bytes, so `unmarshal` reads it back
/// as a present extension and leaves the reader at what follows it.
pub proof fn lemma_extended_master_secret_roundtrip(rest: Seq<u8>)
    ensures
        (spec_extended_master_secret_bytes() + rest).len() >= 2,
        (spec_extended_master_secret_bytes() + rest).subrange(
            2,
            (spec_extended_master_secret_bytes() + rest).len() as int,
        ) == rest,
{
    assert((spec_extended_master_secret_bytes() + rest).subrange(
        2,
        (spec_extended_master_secret_bytes() + rest).len() as int,
    ) =~= rest);
}

} // verus!
