//! The AES-256-CBC-SHA cipher suites, with an RSA or an ECDSA certificate,
//! and once initialized the keys of each direction.
use vstd::prelude::*;

use crate::dtls::cipher_suite::{
    CipherSuiteHash, CipherSuiteId, ClientCertificateType,
};
use crate::dtls::prf::{prf_encryption_keys, spec_key_material};
use crate::dtls::Error;

verus! {

/// The length of the MAC keys that key derivation makes for this suite.
pub const PRF_MAC_LEN: usize = 20;

/// The length of the write keys that key derivation makes for this suite.
pub const PRF_KEY_LEN: usize = 32;

/// The length of the write IVs that key derivation makes for this suite.
pub const PRF_IV_LEN: usize = 16;

/// The keys of an initialized AES-CBC suite: the write key and MAC key this
/// side writes with and those it reads with.
#[derive(Debug, Clone)]
pub struct CbcKeys {
    pub local_key: Vec<u8>,
    pub local_mac: Vec<u8>,
    pub remote_key: Vec<u8>,
    pub remote_mac: Vec<u8>,
}

/// Whether `k` holds, for a side that is the client or not, the MAC keys and
/// write keys cut from `material` (client MAC key, server MAC key, client
/// key, server key, then the IVs, which CBC does not keep).
pub open spec fn cbc_keys_from(k: CbcKeys, material: Seq<u8>, is_client: bool) -> bool {
    let m = PRF_MAC_LEN as int;
    let client_mac = material.subrange(0, m);
    let server_mac = material.subrange(m, 2 * m);
    let client_key = material.subrange(2 * m, 2 * m + PRF_KEY_LEN);
    let server_key = material.subrange(2 * m + PRF_KEY_LEN, 2 * m + 2 * PRF_KEY_LEN);
    if is_client {
        &&& k.local_key@ == client_key
        &&& k.local_mac@ == client_mac
        &&& k.remote_key@ == server_key
        &&& k.remote_mac@ == server_mac
    } else {
        &&& k.local_key@ == server_key
        &&& k.local_mac@ == server_mac
        &&& k.remote_key@ == client_key
        &&& k.remote_mac@ == client_mac
    }
}

/// An AES-256-CBC-SHA cipher suite.
#[derive(Debug, Clone)]
pub struct CipherSuiteAes256CbcSha {
    cbc: Option<CbcKeys>,
    rsa: bool,
}

/// The name of the suite with an RSA or an ECDSA certificate.
pub open spec fn spec_cbc_suite_name(rsa: bool) -> Seq<char> {
    if rsa {
        "TLS_ECDHE_RSA_WITH_AES_256_CBC_SHA"@
    } else {
        "TLS_ECDHE_ECDSA_WITH_AES_256_CBC_SHA"@
    }
}

impl CipherSuiteAes256CbcSha {
    /// The keys, once initialized.
    pub closed spec fn spec_cbc(&self) -> Option<CbcKeys> {
        self.cbc
    }

    /// Whether the suite goes with RSA certificates (else ECDSA).
    pub closed spec fn spec_rsa(&self) -> bool {
        self.rsa
    }

    /// A suite that is not yet initialized.
    pub fn new(rsa: bool) -> (r: CipherSuiteAes256CbcSha)
        ensures
            r.spec_cbc() is None,
            r.spec_rsa() == rsa,
    {
        CipherSuiteAes256CbcSha { cbc: None, rsa }
    }

    /// The suite's name.
    pub fn to_string(&self) -> (r: String)
        ensures
            r@ == spec_cbc_suite_name(self.spec_rsa()),
    {
        if self.rsa {
            "TLS_ECDHE_RSA_WITH_AES_256_CBC_SHA".to_owned()
        } else {
            "TLS_ECDHE_ECDSA_WITH_AES_256_CBC_SHA".to_owned()
        }
    }

    /// The suite's identifier: the RSA or the ECDSA variant.
    pub fn id(&self) -> (r: CipherSuiteId)
        ensures
            r == if self.spec_rsa() {
                CipherSuiteId::Tls_Ecdhe_Rsa_With_Aes_256_Cbc_Sha
            } else {
                CipherSuiteId::Tls_Ecdhe_Ecdsa_With_Aes_256_Cbc_Sha
            },
    {
        if self.rsa {
            CipherSuiteId::Tls_Ecdhe_Rsa_With_Aes_256_Cbc_Sha
        } else {
            CipherSuiteId::Tls_Ecdhe_Ecdsa_With_Aes_256_Cbc_Sha
        }
    }

    /// The certificate type the suite goes with: RSA or ECDSA signing.
    pub fn certificate_type(&self) -> (r: ClientCertificateType)
        ensures
            r == if self.spec_rsa() {
                ClientCertificateType::RsaSign
            } else {
                ClientCertificateType::EcdsaSign
            },
    {
        if self.rsa {
            ClientCertificateType::RsaSign
        } else {
            ClientCertificateType::EcdsaSign
        }
    }

    /// The hash of the suite's key derivation: SHA-256.
    pub fn hash_func(&self) -> (r: CipherSuiteHash)
        ensures
            r == CipherSuiteHash::Sha256,
    {
        CipherSuiteHash::Sha256
    }

    /// The suite never uses a pre-shared key.
    pub fn is_psk(&self) -> (r: bool)
        ensures
            r == false,
    {
        false
    }

    /// Whether the suite holds its keys.
    pub fn is_initialized(&self) -> (r: bool)
        ensures
            r == self.spec_cbc() is Some,
    {
        self.cbc.is_some()
    }

    /// Derives the keys of both directions from the master secret and the
    /// two hellos' randoms (RFC 5246 key expansion, with this suite's MAC
    /// key, key and IV lengths) and keeps the MAC and write keys: a client
    /// writes with the client keys and reads with the server keys, a server
    /// the other way round.
    pub fn init(
        &mut self,
        master_secret: &[u8],
        client_random: &[u8],
        server_random: &[u8],
        is_client: bool,
    ) -> (res: Result<(), Error>)
        ensures
            res is Ok,
            final(self).spec_cbc() matches Some(k) && cbc_keys_from(
                k,
                spec_key_material(
                    master_secret@,
                    client_random@,
                    server_random@,
                    (2 * PRF_MAC_LEN + 2 * PRF_KEY_LEN + 2 * PRF_IV_LEN) as nat,
                ),
                is_client,
            ),
            final(self).spec_rsa() == old(self).spec_rsa(),
    {
        let keys = prf_encryption_keys(
            master_secret,
            client_random,
            server_random,
            PRF_MAC_LEN,
            PRF_KEY_LEN,
            PRF_IV_LEN,
            self.hash_func(),
        )?;
        if is_client {
            self.cbc = Some(
                CbcKeys {
                    local_key: keys.client_write_key,
                    local_mac: keys.client_mac_key,
                    remote_key: keys.server_write_key,
                    remote_mac: keys.server_mac_key,
                },
            );
        } else {
            self.cbc = Some(
                CbcKeys {
                    local_key: keys.server_write_key,
                    local_mac: keys.server_mac_key,
                    remote_key: keys.client_write_key,
                    remote_mac: keys.client_mac_key,
                },
            );
        }
        Ok(())
    }
}

/// A client and a server that derive their keys from the same key material
/// agree: what one writes and signs with, the other reads and checks with.
pub proof fn lemma_cbc_sides_agree(client: CbcKeys, server: CbcKeys, material: Seq<u8>)
    requires
        cbc_keys_from(client, material, true),
        cbc_keys_from(server, material, false),
    ensures
        client.local_key@ == server.remote_key@,
        client.local_mac@ == server.remote_mac@,
        client.remote_key@ == server.local_key@,
        client.remote_mac@ == server.local_mac@,
{
}

} // verus!
