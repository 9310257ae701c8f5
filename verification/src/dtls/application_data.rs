//! Application data (RFC 5246, section 10): bytes that the record layer
//! carries without looking into them.
use vstd::prelude::*;

use crate::dtls::{ContentType, Error};

verus! {

/// The bytes that an application data message is written as: the data
/// itself.
pub open spec fn spec_application_data_bytes(m: ApplicationData) -> Seq<u8> {
    m.data@
}

/// The data that an application data message read from `raw` carries: all
/// of `raw`.
pub open spec fn spec_parse_application_data(raw: Seq<u8>) -> Seq<u8> {
    raw
}

/// An application data message.
#[derive(Debug, Clone, PartialEq, Eq)]
pub struct ApplicationData {
    pub data: Vec<u8>,
}

impl ApplicationData {
    /// The record content type: application data.
    pub fn content_type(&self) -> (t: ContentType)
        ensures
            t == ContentType::ApplicationData,
    {
        ContentType::ApplicationData
    }

    /// The number of bytes carried.
    pub fn size(&self) -> (r: usize)
        ensures
            r == self.data@.len(),
    {
        self.data.len()
    }

    /// Appends the carried bytes to `writer`.
    pub fn marshal(&self, writer: &mut Vec<u8>) -> (res: Result<(), Error>)
        ensures
            final(writer)@ == old(writer)@ + spec_application_data_bytes(*self),
            res is Ok,
    {
        let mut i: usize = 0;
        while i < self.data.len()
            invariant
                i <= self.data@.len(),
                writer@ == old(writer)@ + self.data@.subrange(0, i as int),
            decreases self.data@.len() - i,
        {
            writer.push(self.data[i]);
            i = i + 1;
            assert(writer@ =~= old(writer)@ + self.data@.subrange(0, i as int));
        }
        assert(self.data@.subrange(0, i as int) =~= self.data@);
        Ok(())
    }

    /// Takes all the bytes left in `reader` as the message.
    pub fn unmarshal(reader: &mut &[u8]) -> (res: Result<ApplicationData, Error>)
        ensures
            res matches Ok(m) && m.data@ == spec_parse_application_data(old(reader)@),
            final(reader)@ == Seq::<u8>::empty(),
    {
        let data = vstd::slice::slice_to_vec(*reader);
        let len = reader.len();
        *reader = vstd::slice::slice_subrange(*reader, len, len);
        assert(reader@ =~= Seq::<u8>::empty());
        Ok(ApplicationData { data })
    }
}

/// An application data message reads back from the bytes it is written as
/// with the same data, and so with the same size.
pub proof fn lemma_application_data_roundtrip(m: ApplicationData)
    ensures
        spec_parse_application_data(spec_application_data_bytes(m)) == m.data@,
        spec_parse_application_data(spec_application_data_bytes(m)).len() == m.data@.len(),
{
}

} // verus!
