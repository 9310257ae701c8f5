//! DTLS (RFC 6347): the application data, extended master secret extension
//! and server hello done messages, and two cipher suites' bookkeeping.
//!
//! Messages are read from a byte slice that each read advances, as reading
//! from a `&[u8]` does, and written by appending to a byte vector.
use vstd::prelude::*;

pub mod application_data;
pub mod cipher_suite;
pub mod cipher_suite_aes_128_ccm;
pub mod cipher_suite_aes_256_cbc_sha;
pub mod extension_use_extended_master_secret;
pub mod handshake_message_server_hello_done;
pub mod prf;

verus! {

/// Why a DTLS message was refused.
#[derive(Debug, Clone, Copy, PartialEq, Eq, Structural)]
pub enum Error {
    /// The input ended before the message did.
    ErrUnexpectedEof,
}

/// The content type of a DTLS record.
#[derive(Debug, Clone, Copy, PartialEq, Eq, Structural)]
pub enum ContentType {
    ChangeCipherSpec,
    Alert,
    Handshake,
    ApplicationData,
    Invalid,
}

/// The type of a DTLS handshake message.
#[derive(Debug, Clone, Copy, PartialEq, Eq, Structural)]
pub enum HandshakeType {
    HelloRequest,
    ClientHello,
    ServerHello,
    HelloVerifyRequest,
    Certificate,
    ServerKeyExchange,
    CertificateRequest,
    ServerHelloDone,
    CertificateVerify,
    ClientKeyExchange,
    Finished,
    Invalid,
}

/// The type of a DTLS hello extension.
#[derive(Debug, Clone, Copy, PartialEq, Eq, Structural)]
pub enum ExtensionValue {
    ServerName,
    SupportedEllipticCurves,
    SupportedPointFormats,
    SupportedSignatureAlgorithms,
    UseSrtp,
    Alpn,
    UseExtendedMasterSecret,
    RenegotiationInfo,
    Unsupported,
}

} // verus!
