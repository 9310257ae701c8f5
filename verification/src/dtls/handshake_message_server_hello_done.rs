//! The server hello done handshake message: it has no body.
use vstd::prelude::*;

use crate::dtls::{Error, HandshakeType};

verus! {

/// A server hello done message.
#[derive(Debug, Clone, Copy, PartialEq, Eq, Structural)]
pub struct HandshakeMessageServerHelloDone;

impl HandshakeMessageServerHelloDone {
    /// The handshake type: server hello done.
    pub fn handshake_type(&self) -> (t: HandshakeType)
        ensures
            t == HandshakeType::ServerHelloDone,
    {
        HandshakeType::ServerHelloDone
    }

    /// The size of the body: none.
    pub fn size(&self) -> (r: usize)
        ensures
            r == 0,
    {
        0
    }

    /// Writes nothing.
    pub fn marshal(&self, _writer: &mut Vec<u8>) -> (res: Result<(), Error>)
        ensures
            final(_writer)@ == old(_writer)@,
            res is Ok,
    {
        Ok(())
    }

    /// Reads nothing and gives the message.
    pub fn unmarshal(_reader: &mut &[u8]) -> (res: Result<HandshakeMessageServerHelloDone, Error>)
        ensures
            res == Ok::<HandshakeMessageServerHelloDone, Error>(HandshakeMessageServerHelloDone),
            final(_reader)@ == old(_reader)@,
    {
        Ok(HandshakeMessageServerHelloDone)
    }
}

} // verus!
