//! The AES-128-CCM cipher suites: which suite, which certificate type,
//! whether it uses a pre-shared key, the tag length, and once initialized the
//! keys of each direction.
use vstd::prelude::*;

use crate::dtls::cipher_suite::{
    spec_cipher_suite_name, CipherSuiteHash, CipherSuiteId, ClientCertificateType,
    CryptoCcmTagLen,
};
use crate::dtls::prf::{prf_encryption_keys, spec_key_material};
use crate::dtls::Error;

verus! {

/// The length of the MAC keys that key derivation makes for this suite.
pub const PRF_MAC_LEN: usize = 0;

/// The length of the write keys that key derivation makes for this suite.
pub const PRF_KEY_LEN: usize = 16;

/// The length of the write IVs that key derivation makes for this suite.
pub const PRF_IV_LEN: usize = 4;

/// The keys of an initialized AES-CCM suite: the tag length, and the key and
/// IV this side writes with and those it reads with.
#[derive(Debug, Clone)]
pub struct CcmKeys {
    pub tag_len: CryptoCcmTagLen,
    pub local_write_key: Vec<u8>,
    pub local_write_iv: Vec<u8>,
    pub remote_write_key: Vec<u8>,
    pub remote_write_iv: Vec<u8>,
}

/// Whether `k` holds, for a side that is the client or not, the write keys
/// and IVs cut from `material` (no MAC keys, then the client key, the server
/// key, the client IV and the server IV), and the tag length `tag_len`.
pub open spec fn ccm_keys_from(
    k: CcmKeys,
    material: Seq<u8>,
    tag_len: CryptoCcmTagLen,
    is_client: bool,
) -> bool {
    let m = 2 * PRF_MAC_LEN as int;
    let client_key = material.subrange(m, m + PRF_KEY_LEN);
    let server_key = material.subrange(m + PRF_KEY_LEN, m + 2 * PRF_KEY_LEN);
    let client_iv = material.subrange(m + 2 * PRF_KEY_LEN, m + 2 * PRF_KEY_LEN + PRF_IV_LEN);
    let server_iv = material.subrange(
        m + 2 * PRF_KEY_LEN + PRF_IV_LEN,
        m + 2 * PRF_KEY_LEN + 2 * PRF_IV_LEN,
    );
    &&& k.tag_len == tag_len
    &&& if is_client {
        &&& k.local_write_key@ == client_key
        &&& k.local_write_iv@ == client_iv
        &&& k.remote_write_key@ == server_key
        &&& k.remote_write_iv@ == server_iv
    } else {
        &&& k.local_write_key@ == server_key
        &&& k.local_write_iv@ == server_iv
        &&& k.remote_write_key@ == client_key
        &&& k.remote_write_iv@ == client_iv
    }
}

/// An AES-128-CCM cipher suite.
#[derive(Debug, Clone)]
pub struct CipherSuiteAes128Ccm {
    ccm: Option<CcmKeys>,
    client_certificate_type: ClientCertificateType,
    id: CipherSuiteId,
    psk: bool,
    crypto_ccm_tag_len: CryptoCcmTagLen,
}

impl CipherSuiteAes128Ccm {
    /// The keys, once initialized.
    pub closed spec fn spec_ccm(&self) -> Option<CcmKeys> {
        self.ccm
    }

    /// The certificate type the suite goes with.
    pub closed spec fn spec_certificate_type(&self) -> ClientCertificateType {
        self.client_certificate_type
    }

    /// The suite's identifier.
    pub closed spec fn spec_id(&self) -> CipherSuiteId {
        self.id
    }

    /// Whether the suite uses a pre-shared key.
    pub closed spec fn spec_psk(&self) -> bool {
        self.psk
    }

    /// The tag length.
    pub closed spec fn spec_tag_len(&self) -> CryptoCcmTagLen {
        self.crypto_ccm_tag_len
    }

    /// A suite that is not yet initialized.
    pub fn new(
        client_certificate_type: ClientCertificateType,
        id: CipherSuiteId,
        psk: bool,
        crypto_ccm_tag_len: CryptoCcmTagLen,
    ) -> (r: CipherSuiteAes128Ccm)
        ensures
            r.spec_ccm() is None,
            r.spec_certificate_type() == client_certificate_type,
            r.spec_id() == id,
            r.spec_psk() == psk,
            r.spec_tag_len() == crypto_ccm_tag_len,
    {
        CipherSuiteAes128Ccm { ccm: None, client_certificate_type, id, psk, crypto_ccm_tag_len }
    }

    /// The suite's name, which is its identifier's.
    pub fn to_string(&self) -> (r: String)
        ensures
            r@ == spec_cipher_suite_name(self.spec_id()),
    {
        self.id.to_string()
    }

    /// The suite's identifier.
    pub fn id(&self) -> (r: CipherSuiteId)
        ensures
            r == self.spec_id(),
    {
        self.id
    }

    /// The certificate type the suite goes with.
    pub fn certificate_type(&self) -> (r: ClientCertificateType)
        ensures
            r == self.spec_certificate_type(),
    {
        self.client_certificate_type
    }

    /// The hash of the suite's key derivation: SHA-256.
    pub fn hash_func(&self) -> (r: CipherSuiteHash)
        ensures
            r == CipherSuiteHash::Sha256,
    {
        CipherSuiteHash::Sha256
    }

    /// Whether the suite uses a pre-shared key.
    pub fn is_psk(&self) -> (r: bool)
        ensures
            r == self.spec_psk(),
    {
        self.psk
    }

    /// Whether the suite holds its keys.
    pub fn is_initialized(&self) -> (r: bool)
        ensures
            r == self.spec_ccm() is Some,
    {
        self.ccm.is_some()
    }

    /// Derives the keys of both directions from the master secret and the
    /// two hellos' randoms (RFC 5246 key expansion, with this suite's key and
    /// IV lengths) and keeps them: a client writes with the client keys and
    /// reads with the server keys, a server the other way round. Everything
    /// else about the suite stays as it was.
    pub fn init(
        &mut self,
        master_secret: &[u8],
        client_random: &[u8],
        server_random: &[u8],
        is_client: bool,
    ) -> (res: Result<(), Error>)
        ensures
            res is Ok,
            final(self).spec_ccm() matches Some(k) && ccm_keys_from(
                k,
                spec_key_material(
                    master_secret@,
                    client_random@,
                    server_random@,
                    (2 * PRF_MAC_LEN + 2 * PRF_KEY_LEN + 2 * PRF_IV_LEN) as nat,
                ),
                old(self).spec_tag_len(),
                is_client,
            ),
            final(self).spec_certificate_type() == old(self).spec_certificate_type(),
            final(self).spec_id() == old(self).spec_id(),
            final(self).spec_psk() == old(self).spec_psk(),
            final(self).spec_tag_len() == old(self).spec_tag_len(),
    {
        let keys = prf_encryption_keys(
            master_secret,
            client_random,
            server_random,
            PRF_MAC_LEN,
            PRF_KEY_LEN,
            PRF_IV_LEN,
            self.hash_func(),
        )?;
        if is_client {
            self.ccm = Some(
                CcmKeys {
                    tag_len: self.crypto_ccm_tag_len,
                    local_write_key: keys.client_write_key,
                    local_write_iv: keys.client_write_iv,
                    remote_write_key: keys.server_write_key,
                    remote_write_iv: keys.server_write_iv,
                },
            );
        } else {
            self.ccm = Some(
                CcmKeys {
                    tag_len: self.crypto_ccm_tag_len,
                    local_write_key: keys.server_write_key,
                    local_write_iv: keys.server_write_iv,
                    remote_write_key: keys.client_write_key,
                    remote_write_iv: keys.client_write_iv,
                },
            );
        }
        Ok(())
    }
}

/// A client and a server that derive their keys from the same key material
/// agree: what one writes with, the other reads with.
pub proof fn lemma_ccm_sides_agree(
    client: CcmKeys,
    server: CcmKeys,
    material: Seq<u8>,
    tag_len: CryptoCcmTagLen,
)
    requires
        ccm_keys_from(client, material, tag_len, true),
        ccm_keys_from(server, material, tag_len, false),
    ensures
        client.local_write_key@ == server.remote_write_key@,
        client.local_write_iv@ == server.remote_write_iv@,
        client.remote_write_key@ == server.local_write_key@,
        client.remote_write_iv@ == server.local_write_iv@,
        client.tag_len == server.tag_len,
{
}

} // verus!
