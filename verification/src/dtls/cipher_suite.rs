//! What the cipher suites have in common: their identifiers, the hash their
//! key derivation uses, the certificate type they go with, and the keys that
//! key derivation hands them.
use vstd::prelude::*;

verus! {

/// A TLS cipher suite identifier.
#[allow(non_camel_case_types)]
#[derive(Debug, Clone, Copy, PartialEq, Eq, Structural)]
pub enum CipherSuiteId {
    Tls_Ecdhe_Ecdsa_With_Aes_128_Ccm,
    Tls_Ecdhe_Ecdsa_With_Aes_128_Ccm_8,
    Tls_Ecdhe_Ecdsa_With_Aes_128_Gcm_Sha256,
    Tls_Ecdhe_Rsa_With_Aes_128_Gcm_Sha256,
    Tls_Ecdhe_Ecdsa_With_Aes_256_Gcm_Sha384,
    Tls_Ecdhe_Rsa_With_Aes_256_Gcm_Sha384,
    Tls_Ecdhe_Ecdsa_With_Aes_256_Cbc_Sha,
    Tls_Ecdhe_Rsa_With_Aes_256_Cbc_Sha,
    Tls_Psk_With_Aes_128_Ccm,
    Tls_Psk_With_Aes_128_Ccm_8,
    Tls_Psk_With_Aes_256_Ccm_8,
    Tls_Psk_With_Aes_128_Gcm_Sha256,
    Tls_Psk_With_Aes_128_Cbc_Sha256,
    Tls_Ecdhe_Psk_With_Aes_128_Cbc_Sha256,
    Unsupported,
}

/// The name of a cipher suite, as TLS registries spell it.
pub open spec fn spec_cipher_suite_name(id: CipherSuiteId) -> Seq<char> {
    match id {
        CipherSuiteId::Tls_Ecdhe_Ecdsa_With_Aes_128_Ccm => "TLS_ECDHE_ECDSA_WITH_AES_128_CCM"@,
        CipherSuiteId::Tls_Ecdhe_Ecdsa_With_Aes_128_Ccm_8 => "TLS_ECDHE_ECDSA_WITH_AES_128_CCM_8"@,
        CipherSuiteId::Tls_Ecdhe_Ecdsa_With_Aes_128_Gcm_Sha256 => "TLS_ECDHE_ECDSA_WITH_AES_128_GCM_SHA256"@,
        CipherSuiteId::Tls_Ecdhe_Rsa_With_Aes_128_Gcm_Sha256 => "TLS_ECDHE_RSA_WITH_AES_128_GCM_SHA256"@,
        CipherSuiteId::Tls_Ecdhe_Ecdsa_With_Aes_256_Gcm_Sha384 => "TLS_ECDHE_ECDSA_WITH_AES_256_GCM_SHA384"@,
        CipherSuiteId::Tls_Ecdhe_Rsa_With_Aes_256_Gcm_Sha384 => "TLS_ECDHE_RSA_WITH_AES_256_GCM_SHA384"@,
        CipherSuiteId::Tls_Ecdhe_Ecdsa_With_Aes_256_Cbc_Sha => "TLS_ECDHE_ECDSA_WITH_AES_256_CBC_SHA"@,
        CipherSuiteId::Tls_Ecdhe_Rsa_With_Aes_256_Cbc_Sha => "TLS_ECDHE_RSA_WITH_AES_256_CBC_SHA"@,
        CipherSuiteId::Tls_Psk_With_Aes_128_Ccm => "TLS_PSK_WITH_AES_128_CCM"@,
        CipherSuiteId::Tls_Psk_With_Aes_128_Ccm_8 => "TLS_PSK_WITH_AES_128_CCM_8"@,
        CipherSuiteId::Tls_Psk_With_Aes_256_Ccm_8 => "TLS_PSK_WITH_AES_256_CCM_8"@,
        CipherSuiteId::Tls_Psk_With_Aes_128_Gcm_Sha256 => "TLS_PSK_WITH_AES_128_GCM_SHA256"@,
        CipherSuiteId::Tls_Psk_With_Aes_128_Cbc_Sha256 => "TLS_PSK_WITH_AES_128_CBC_SHA256"@,
        CipherSuiteId::Tls_Ecdhe_Psk_With_Aes_128_Cbc_Sha256 => "TLS_ECDHE_PSK_WITH_AES_128_CBC_SHA256"@,
        CipherSuiteId::Unsupported => "Unsupported CipherSuiteID"@,
    }
}

impl CipherSuiteId {
    /// The name of the cipher suite, as TLS registries spell it.
    pub fn to_string(&self) -> (r: String)
        ensures
            r@ == spec_cipher_suite_name(*self),
    {
        match self {
            CipherSuiteId::Tls_Ecdhe_Ecdsa_With_Aes_128_Ccm => "TLS_ECDHE_ECDSA_WITH_AES_128_CCM".to_owned(),
            CipherSuiteId::Tls_Ecdhe_Ecdsa_With_Aes_128_Ccm_8 => "TLS_ECDHE_ECDSA_WITH_AES_128_CCM_8".to_owned(),
            CipherSuiteId::Tls_Ecdhe_Ecdsa_With_Aes_128_Gcm_Sha256 => "TLS_ECDHE_ECDSA_WITH_AES_128_GCM_SHA256".to_owned(),
            CipherSuiteId::Tls_Ecdhe_Rsa_With_Aes_128_Gcm_Sha256 => "TLS_ECDHE_RSA_WITH_AES_128_GCM_SHA256".to_owned(),
            CipherSuiteId::Tls_Ecdhe_Ecdsa_With_Aes_256_Gcm_Sha384 => "TLS_ECDHE_ECDSA_WITH_AES_256_GCM_SHA384".to_owned(),
            CipherSuiteId::Tls_Ecdhe_Rsa_With_Aes_256_Gcm_Sha384 => "TLS_ECDHE_RSA_WITH_AES_256_GCM_SHA384".to_owned(),
            CipherSuiteId::Tls_Ecdhe_Ecdsa_With_Aes_256_Cbc_Sha => "TLS_ECDHE_ECDSA_WITH_AES_256_CBC_SHA".to_owned(),
            CipherSuiteId::Tls_Ecdhe_Rsa_With_Aes_256_Cbc_Sha => "TLS_ECDHE_RSA_WITH_AES_256_CBC_SHA".to_owned(),
            CipherSuiteId::Tls_Psk_With_Aes_128_Ccm => "TLS_PSK_WITH_AES_128_CCM".to_owned(),
            CipherSuiteId::Tls_Psk_With_Aes_128_Ccm_8 => "TLS_PSK_WITH_AES_128_CCM_8".to_owned(),
            CipherSuiteId::Tls_Psk_With_Aes_256_Ccm_8 => "TLS_PSK_WITH_AES_256_CCM_8".to_owned(),
            CipherSuiteId::Tls_Psk_With_Aes_128_Gcm_Sha256 => "TLS_PSK_WITH_AES_128_GCM_SHA256".to_owned(),
            CipherSuiteId::Tls_Psk_With_Aes_128_Cbc_Sha256 => "TLS_PSK_WITH_AES_128_CBC_SHA256".to_owned(),
            CipherSuiteId::Tls_Ecdhe_Psk_With_Aes_128_Cbc_Sha256 => "TLS_ECDHE_PSK_WITH_AES_128_CBC_SHA256".to_owned(),
            CipherSuiteId::Unsupported => "Unsupported CipherSuiteID".to_owned(),
        }
    }
}

/// Whether a suite authenticates with the short, eight-byte AES-CCM tag.
pub open spec fn spec_suite_has_short_tag(id: CipherSuiteId) -> bool {
    id == CipherSuiteId::Tls_Ecdhe_Ecdsa_With_Aes_128_Ccm_8 || id
        == CipherSuiteId::Tls_Psk_With_Aes_128_Ccm_8 || id == CipherSuiteId::Tls_Psk_With_Aes_256_Ccm_8
}

/// The suite that a name names, told apart by the name's length and a few
/// of its letters.
pub open spec fn spec_cipher_suite_of_name(n: Seq<char>) -> CipherSuiteId {
    if n.len() == 24 {
        CipherSuiteId::Tls_Psk_With_Aes_128_Ccm
    } else if n.len() == 25 {
        CipherSuiteId::Unsupported
    } else if n.len() == 26 {
        if n[17] == '1' {
            CipherSuiteId::Tls_Psk_With_Aes_128_Ccm_8
        } else {
            CipherSuiteId::Tls_Psk_With_Aes_256_Ccm_8
        }
    } else if n.len() == 31 {
        if n[21] == 'G' {
            CipherSuiteId::Tls_Psk_With_Aes_128_Gcm_Sha256
        } else {
            CipherSuiteId::Tls_Psk_With_Aes_128_Cbc_Sha256
        }
    } else if n.len() == 32 {
        CipherSuiteId::Tls_Ecdhe_Ecdsa_With_Aes_128_Ccm
    } else if n.len() == 34 {
        if n[10] == 'E' {
            CipherSuiteId::Tls_Ecdhe_Ecdsa_With_Aes_128_Ccm_8
        } else {
            CipherSuiteId::Tls_Ecdhe_Rsa_With_Aes_256_Cbc_Sha
        }
    } else if n.len() == 36 {
        CipherSuiteId::Tls_Ecdhe_Ecdsa_With_Aes_256_Cbc_Sha
    } else if n.len() == 37 {
        if n[23] == '2' {
            CipherSuiteId::Tls_Ecdhe_Rsa_With_Aes_256_Gcm_Sha384
        } else if n[10] == 'R' {
            CipherSuiteId::Tls_Ecdhe_Rsa_With_Aes_128_Gcm_Sha256
        } else {
            CipherSuiteId::Tls_Ecdhe_Psk_With_Aes_128_Cbc_Sha256
        }
    } else if n.len() == 39 {
        if n[25] == '1' {
            CipherSuiteId::Tls_Ecdhe_Ecdsa_With_Aes_128_Gcm_Sha256
        } else {
            CipherSuiteId::Tls_Ecdhe_Ecdsa_With_Aes_256_Gcm_Sha384
        }
    } else {
        CipherSuiteId::Unsupported
    }
}

/// A suite's name tells the suite: reading the suite back from its name
/// gives the same suite, so two different identifiers never share a name.
pub proof fn lemma_cipher_suite_names_distinct(a: CipherSuiteId, b: CipherSuiteId)
    ensures
        spec_cipher_suite_of_name(spec_cipher_suite_name(a)) == a,
        a != b ==> spec_cipher_suite_name(a) != spec_cipher_suite_name(b),
{
    lemma_cipher_suite_name_decodes(a);
    lemma_cipher_suite_name_decodes(b);
}

/// Reading a suite back from its name gives the suite.
proof fn lemma_cipher_suite_name_decodes(a: CipherSuiteId)
    ensures
        spec_cipher_suite_of_name(spec_cipher_suite_name(a)) == a,
{
    reveal_strlit("TLS_ECDHE_ECDSA_WITH_AES_128_CCM");
    reveal_strlit("TLS_ECDHE_ECDSA_WITH_AES_128_CCM_8");
    reveal_strlit("TLS_ECDHE_ECDSA_WITH_AES_128_GCM_SHA256");
    reveal_strlit("TLS_ECDHE_RSA_WITH_AES_128_GCM_SHA256");
    reveal_strlit("TLS_ECDHE_ECDSA_WITH_AES_256_GCM_SHA384");
    reveal_strlit("TLS_ECDHE_RSA_WITH_AES_256_GCM_SHA384");
    reveal_strlit("TLS_ECDHE_ECDSA_WITH_AES_256_CBC_SHA");
    reveal_strlit("TLS_ECDHE_RSA_WITH_AES_256_CBC_SHA");
    reveal_strlit("TLS_PSK_WITH_AES_128_CCM");
    reveal_strlit("TLS_PSK_WITH_AES_128_CCM_8");
    reveal_strlit("TLS_PSK_WITH_AES_256_CCM_8");
    reveal_strlit("TLS_PSK_WITH_AES_128_GCM_SHA256");
    reveal_strlit("TLS_PSK_WITH_AES_128_CBC_SHA256");
    reveal_strlit("TLS_ECDHE_PSK_WITH_AES_128_CBC_SHA256");
    reveal_strlit("Unsupported CipherSuiteID");
}

/// A suite's name ends in `_CCM_8` exactly when the suite uses the
/// eight-byte AES-CCM tag.
pub proof fn lemma_cipher_suite_name_short_tag(id: CipherSuiteId)
    ensures
        ({
            let n = spec_cipher_suite_name(id);
            n.len() >= 6 && n.subrange(n.len() - 6, n.len() as int) == "_CCM_8"@
        }) <==> spec_suite_has_short_tag(id),
{
    reveal_strlit("_CCM_8");
    reveal_strlit("TLS_ECDHE_ECDSA_WITH_AES_128_CCM");
    reveal_strlit("TLS_ECDHE_ECDSA_WITH_AES_128_CCM_8");
    reveal_strlit("TLS_ECDHE_ECDSA_WITH_AES_128_GCM_SHA256");
    reveal_strlit("TLS_ECDHE_RSA_WITH_AES_128_GCM_SHA256");
    reveal_strlit("TLS_ECDHE_ECDSA_WITH_AES_256_GCM_SHA384");
    reveal_strlit("TLS_ECDHE_RSA_WITH_AES_256_GCM_SHA384");
    reveal_strlit("TLS_ECDHE_ECDSA_WITH_AES_256_CBC_SHA");
    reveal_strlit("TLS_ECDHE_RSA_WITH_AES_256_CBC_SHA");
    reveal_strlit("TLS_PSK_WITH_AES_128_CCM");
    reveal_strlit("TLS_PSK_WITH_AES_128_CCM_8");
    reveal_strlit("TLS_PSK_WITH_AES_256_CCM_8");
    reveal_strlit("TLS_PSK_WITH_AES_128_GCM_SHA256");
    reveal_strlit("TLS_PSK_WITH_AES_128_CBC_SHA256");
    reveal_strlit("TLS_ECDHE_PSK_WITH_AES_128_CBC_SHA256");
    reveal_strlit("Unsupported CipherSuiteID");
    let n = spec_cipher_suite_name(id);
    if spec_suite_has_short_tag(id) {
        assert(n.subrange(n.len() - 6, n.len() as int) =~= "_CCM_8"@);
    } else {
        assert(n.len() >= 6);
        assert(n.subrange(n.len() - 6, n.len() as int)[5] != '8');
    }
}

/// The hash that a cipher suite's key derivation uses.
#[derive(Debug, Clone, Copy, PartialEq, Eq, Structural)]
pub enum CipherSuiteHash {
    Sha256,
}

/// The type of certificate that a client presents.
#[derive(Debug, Clone, Copy, PartialEq, Eq, Structural)]
pub enum ClientCertificateType {
    RsaSign,
    EcdsaSign,
    Unsupported,
}

/// The length of the authentication tag of AES-CCM: 8 or 16 bytes.
#[derive(Debug, Clone, Copy, PartialEq, Eq, Structural)]
pub enum CryptoCcmTagLen {
    CryptoCcm8TagLength,
    CryptoCcmTagLength,
}

/// The keys that key derivation gives a connection, for each side.
#[derive(Debug, Clone)]
pub struct EncryptionKeys {
    pub master_secret: Vec<u8>,
    pub client_mac_key: Vec<u8>,
    pub server_mac_key: Vec<u8>,
    pub client_write_key: Vec<u8>,
    pub server_write_key: Vec<u8>,
    pub client_write_iv: Vec<u8>,
    pub server_write_iv: Vec<u8>,
}

} // verus!
