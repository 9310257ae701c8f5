use webrtc::dtls::application_data::ApplicationData;
use webrtc::dtls::cipher_suite::{
    CipherSuiteHash, CipherSuiteId, ClientCertificateType, CryptoCcmTagLen,
};
use webrtc::dtls::cipher_suite_aes_128_ccm::CipherSuiteAes128Ccm;
use webrtc::dtls::cipher_suite_aes_256_cbc_sha::CipherSuiteAes256CbcSha;
use webrtc::dtls::extension_use_extended_master_secret::ExtensionUseExtendedMasterSecret;
use webrtc::dtls::handshake_message_server_hello_done::HandshakeMessageServerHelloDone;
use webrtc::dtls::prf::{prf_encryption_keys, prf_p_hash, split_key_material};
use webrtc::dtls::{ContentType, Error, ExtensionValue, HandshakeType};

use hmac::{Hmac, Mac};
use sha2::Sha256;

fn hmac(key: &[u8], data: &[u8]) -> Vec<u8> {
    let mut m = <Hmac<Sha256> as Mac>::new_from_slice(key).unwrap();
    m.update(data);
    m.finalize().into_bytes().to_vec()
}

fn reference_p_hash(secret: &[u8], seed: &[u8], len: usize) -> Vec<u8> {
    let mut a = seed.to_vec();
    let mut out = vec![];
    while out.len() < len {
        a = hmac(secret, &a);
        let mut x = a.clone();
        x.extend_from_slice(seed);
        out.extend(hmac(secret, &x));
    }
    out.truncate(len);
    out
}

fn hex(s: &str) -> Vec<u8> {
    let s: String = s.split_whitespace().collect();
    (0..s.len()).step_by(2).map(|i| u8::from_str_radix(&s[i..i + 2], 16).unwrap()).collect()
}

#[test]
fn application_data_roundtrip() {
    let m = ApplicationData { data: vec![1, 2, 3] };
    assert_eq!(m.content_type(), ContentType::ApplicationData);
    assert_eq!(m.size(), 3);
    let mut w = vec![9];
    assert!(m.marshal(&mut w).is_ok());
    assert_eq!(w, vec![9, 1, 2, 3]);
    let mut r: &[u8] = &w[1..];
    let back = ApplicationData::unmarshal(&mut r).unwrap();
    assert_eq!(back.data, vec![1, 2, 3]);
    assert!(r.is_empty());
}

#[test]
fn extended_master_secret_roundtrip() {
    let e = ExtensionUseExtendedMasterSecret { supported: true };
    assert_eq!(e.extension_value(), ExtensionValue::UseExtendedMasterSecret);
    assert_eq!(e.size(), 2);
    let mut w = vec![];
    assert!(e.marshal(&mut w).is_ok());
    assert_eq!(w, vec![0, 0]);
    w.push(0x77);
    let mut r: &[u8] = &w;
    assert_eq!(ExtensionUseExtendedMasterSecret::unmarshal(&mut r), Ok(e));
    assert_eq!(r, &[0x77]);
}

#[test]
fn extended_master_secret_short_input() {
    let mut r: &[u8] = &[0];
    assert_eq!(ExtensionUseExtendedMasterSecret::unmarshal(&mut r), Err(Error::ErrUnexpectedEof));
}

#[test]
fn server_hello_done() {
    let m = HandshakeMessageServerHelloDone;
    assert_eq!(m.handshake_type(), HandshakeType::ServerHelloDone);
    assert_eq!(m.size(), 0);
    let mut w = vec![4];
    assert!(m.marshal(&mut w).is_ok());
    assert_eq!(w, vec![4]);
    let mut r: &[u8] = &[1, 2];
    assert_eq!(HandshakeMessageServerHelloDone::unmarshal(&mut r), Ok(m));
    assert_eq!(r, &[1, 2]);
}

#[test]
fn ccm_suite_bookkeeping() {
    let mut s = CipherSuiteAes128Ccm::new(
        ClientCertificateType::EcdsaSign,
        CipherSuiteId::Tls_Ecdhe_Ecdsa_With_Aes_128_Ccm_8,
        false,
        CryptoCcmTagLen::CryptoCcm8TagLength,
    );
    assert_eq!(s.id(), CipherSuiteId::Tls_Ecdhe_Ecdsa_With_Aes_128_Ccm_8);
    assert_eq!(s.to_string(), "TLS_ECDHE_ECDSA_WITH_AES_128_CCM_8");
    assert_eq!(s.certificate_type(), ClientCertificateType::EcdsaSign);
    assert_eq!(s.hash_func(), CipherSuiteHash::Sha256);
    assert!(!s.is_psk());
    assert!(!s.is_initialized());
    assert!(s.init(&[1, 2, 3], &[4; 32], &[5; 32], true).is_ok());
    assert!(s.is_initialized());
    assert_eq!(s.id(), CipherSuiteId::Tls_Ecdhe_Ecdsa_With_Aes_128_Ccm_8);
}

#[test]
fn psk_ccm_suite_name() {
    let s = CipherSuiteAes128Ccm::new(
        ClientCertificateType::Unsupported,
        CipherSuiteId::Tls_Psk_With_Aes_128_Ccm,
        true,
        CryptoCcmTagLen::CryptoCcmTagLength,
    );
    assert!(s.is_psk());
    assert_eq!(s.to_string(), "TLS_PSK_WITH_AES_128_CCM");
}

#[test]
fn cbc_suite_bookkeeping() {
    let mut rsa = CipherSuiteAes256CbcSha::new(true);
    assert_eq!(rsa.to_string(), "TLS_ECDHE_RSA_WITH_AES_256_CBC_SHA");
    assert_eq!(rsa.id(), CipherSuiteId::Tls_Ecdhe_Rsa_With_Aes_256_Cbc_Sha);
    assert_eq!(rsa.certificate_type(), ClientCertificateType::RsaSign);
    assert_eq!(rsa.hash_func(), CipherSuiteHash::Sha256);
    assert!(!rsa.is_psk());
    assert!(!rsa.is_initialized());
    assert!(rsa.init(&[1, 2, 3], &[4; 32], &[5; 32], false).is_ok());
    assert!(rsa.is_initialized());

    let ecdsa = CipherSuiteAes256CbcSha::new(false);
    assert_eq!(ecdsa.to_string(), "TLS_ECDHE_ECDSA_WITH_AES_256_CBC_SHA");
    assert_eq!(ecdsa.id(), CipherSuiteId::Tls_Ecdhe_Ecdsa_With_Aes_256_Cbc_Sha);
    assert_eq!(ecdsa.certificate_type(), ClientCertificateType::EcdsaSign);
}

#[test]
fn cipher_suite_id_names() {
    assert_eq!(CipherSuiteId::Tls_Psk_With_Aes_128_Gcm_Sha256.to_string(), "TLS_PSK_WITH_AES_128_GCM_SHA256");
    assert_eq!(CipherSuiteId::Unsupported.to_string(), "Unsupported CipherSuiteID");
}

#[test]
fn p_hash_matches_rfc5246_definition() {
    let secret = [7u8; 20];
    let seed = [1u8, 2, 3, 4, 5];
    for len in [0usize, 1, 31, 32, 33, 64, 100] {
        let got = prf_p_hash(&secret, &seed, len, CipherSuiteHash::Sha256).unwrap();
        assert_eq!(got, reference_p_hash(&secret, &seed, len));
    }
}

#[test]
fn p_hash_known_vector() {
    let secret = hex("9b be 43 6b a9 40 f0 17 b1 76 52 84 9a 71 db 35");
    let mut seed = b"test label".to_vec();
    seed.extend(hex("a0 ba 9f 93 6c da 31 18 27 a6 f7 96 ff d5 19 8c"));
    let expected = hex(
        "e3 f2 29 ba 72 7b e1 7b 8d 12 26 20 55 7c d4 53 c2 aa b2 1d 07 c3 d4 95 32 9b 52 d4 e6 1e db 5a \
         6b 30 17 91 e9 0d 35 c9 c9 a4 6b 4e 14 ba f9 af 0f a0 22 f7 07 7d ef 17 ab fd 37 97 c0 56 4b ab \
         4f bc 91 66 6e 9d ef 9b 97 fc e3 4f 79 67 89 ba a4 80 82 d1 22 ee 42 c5 a7 2e 5a 51 10 ff f7 01 \
         87 34 7b 66",
    );
    assert_eq!(prf_p_hash(&secret, &seed, 100, CipherSuiteHash::Sha256).unwrap(), expected);
}

#[test]
fn split_key_material_order() {
    let material: Vec<u8> = (0u8..40).collect();
    let k = split_key_material(&material, &[9], 2, 3, 1);
    assert_eq!(k.master_secret, vec![9]);
    assert_eq!(k.client_mac_key, vec![0, 1]);
    assert_eq!(k.server_mac_key, vec![2, 3]);
    assert_eq!(k.client_write_key, vec![4, 5, 6]);
    assert_eq!(k.server_write_key, vec![7, 8, 9]);
    assert_eq!(k.client_write_iv, vec![10]);
    assert_eq!(k.server_write_iv, vec![11]);
}

#[test]
fn encryption_keys_from_key_expansion() {
    let master = [3u8; 48];
    let client_random = [1u8; 32];
    let server_random = [2u8; 32];
    let k = prf_encryption_keys(&master, &client_random, &server_random, 20, 32, 16, CipherSuiteHash::Sha256)
        .unwrap();
    let mut seed = b"key expansion".to_vec();
    seed.extend_from_slice(&server_random);
    seed.extend_from_slice(&client_random);
    let material = reference_p_hash(&master, &seed, 136);
    assert_eq!(k.master_secret, master.to_vec());
    assert_eq!(k.client_mac_key, material[0..20].to_vec());
    assert_eq!(k.server_mac_key, material[20..40].to_vec());
    assert_eq!(k.client_write_key, material[40..72].to_vec());
    assert_eq!(k.server_write_key, material[72..104].to_vec());
    assert_eq!(k.client_write_iv, material[104..120].to_vec());
    assert_eq!(k.server_write_iv, material[120..136].to_vec());
}
