//! The TLS 1.2 pseudo-random function (RFC 5246, section 5) and the key
//! expansion that turns a master secret into the keys of both directions.
use vstd::prelude::*;

use hmac::{Hmac, Mac};
use sha2::Sha256;

use crate::dtls::cipher_suite::{CipherSuiteHash, EncryptionKeys};
use crate::dtls::Error;

verus! {

/// The output of HMAC-SHA256 of `data` under `key`.
pub uninterp spec fn spec_hmac_sha256(key: Seq<u8>, data: Seq<u8>) -> Seq<u8>;

/// The size of a SHA-256 digest, and so of each HMAC-SHA256 output.
pub const SHA256_SIZE: usize = 32;

/// HMAC-SHA256 of `data` under `key`, through the `hmac` crate's
/// `Hmac<Sha256>` (`new_from_slice`, `update`, `finalize`). Its 32 bytes are
/// named, not computed, here; HMAC takes keys of any length, so
/// `new_from_slice` does not fail.
#[verifier::external_body]
fn hmac_sha256(key: &[u8], data: &[u8]) -> (r: Vec<u8>)
    ensures
        r@ == spec_hmac_sha256(key@, data@),
        r@.len() == SHA256_SIZE,
{
    let mut mac = <Hmac<Sha256> as Mac>::new_from_slice(key).expect("HMAC takes keys of any length");
    mac.update(data);
    mac.finalize().into_bytes().to_vec()
}

/// The label of key expansion: the ASCII bytes of `"key expansion"`.
pub open spec fn spec_key_expansion_label() -> Seq<u8> {
    seq![107u8, 101, 121, 32, 101, 120, 112, 97, 110, 115, 105, 111, 110]
}

/// `n` blocks of P_SHA256 after the block whose `A` value is `a`: each block
/// is HMAC(secret, A(i) + seed), where A(i) = HMAC(secret, A(i-1)).
pub open spec fn spec_p_hash_blocks(secret: Seq<u8>, seed: Seq<u8>, a: Seq<u8>, n: nat) -> Seq<
    u8,
>
    decreases n,
{
    if n == 0 {
        Seq::empty()
    } else {
        let next = spec_hmac_sha256(secret, a);
        spec_hmac_sha256(secret, next + seed) + spec_p_hash_blocks(secret, seed, next, (n - 1) as nat)
    }
}

/// The number of 32-byte blocks that `len` bytes take.
pub open spec fn spec_block_count(len: nat) -> nat {
    len / 32 + if len % 32 == 0 {
        0nat
    } else {
        1nat
    }
}

/// The first `len` bytes of P_SHA256(secret, seed), starting with A(0) = seed.
pub open spec fn spec_prf_p_hash(secret: Seq<u8>, seed: Seq<u8>, len: nat) -> Seq<u8> {
    spec_p_hash_blocks(secret, seed, seed, spec_block_count(len)).subrange(0, len as int)
}

/// The key material of a connection: P_SHA256 of the master secret over the
/// label, then the server random, then the client random.
pub open spec fn spec_key_material(
    master_secret: Seq<u8>,
    client_random: Seq<u8>,
    server_random: Seq<u8>,
    len: nat,
) -> Seq<u8> {
    spec_prf_p_hash(master_secret, spec_key_expansion_label() + server_random + client_random, len)
}

/// The keys cut from `material` in order: client MAC key, server MAC key,
/// client write key, server write key, client IV, server IV.
pub open spec fn keys_cut_from(
    keys: EncryptionKeys,
    material: Seq<u8>,
    master_secret: Seq<u8>,
    mac_len: nat,
    key_len: nat,
    iv_len: nat,
) -> bool {
    let m = mac_len as int;
    let k = key_len as int;
    let v = iv_len as int;
    &&& keys.master_secret@ == master_secret
    &&& keys.client_mac_key@ == material.subrange(0, m)
    &&& keys.server_mac_key@ == material.subrange(m, 2 * m)
    &&& keys.client_write_key@ == material.subrange(2 * m, 2 * m + k)
    &&& keys.server_write_key@ == material.subrange(2 * m + k, 2 * m + 2 * k)
    &&& keys.client_write_iv@ == material.subrange(2 * m + 2 * k, 2 * m + 2 * k + v)
    &&& keys.server_write_iv@ == material.subrange(2 * m + 2 * k + v, 2 * m + 2 * k + 2 * v)
}

/// A copy of `s[start..start + len]`.
fn take_slice(s: &[u8], start: usize, len: usize) -> (r: Vec<u8>)
    requires
        start + len <= s@.len(),
        start + len <= usize::MAX,
    ensures
        r@ == s@.subrange(start as int, start + len),
{
    vstd::slice::slice_to_vec(vstd::slice::slice_subrange(s, start, start + len))
}

/// Cuts the keys of both directions from the key material, in the order
/// that RFC 5246 (section 6.3) gives.
pub fn split_key_material(
    material: &[u8],
    master_secret: &[u8],
    mac_len: usize,
    key_len: usize,
    iv_len: usize,
) -> (r: EncryptionKeys)
    requires
        2 * mac_len + 2 * key_len + 2 * iv_len <= material@.len(),
    ensures
        keys_cut_from(r, material@, master_secret@, mac_len as nat, key_len as nat, iv_len as nat),
{
    let _ = material.len();
    let client_mac_key = take_slice(material, 0, mac_len);
    let server_mac_key = take_slice(material, mac_len, mac_len);
    let client_write_key = take_slice(material, 2 * mac_len, key_len);
    let server_write_key = take_slice(material, 2 * mac_len + key_len, key_len);
    let client_write_iv = take_slice(material, 2 * mac_len + 2 * key_len, iv_len);
    let server_write_iv = take_slice(material, 2 * mac_len + 2 * key_len + iv_len, iv_len);
    EncryptionKeys {
        master_secret: vstd::slice::slice_to_vec(master_secret),
        client_mac_key,
        server_mac_key,
        client_write_key,
        server_write_key,
        client_write_iv,
        server_write_iv,
    }
}

/// Appends `b` to `v`.
fn append_bytes(v: &mut Vec<u8>, b: &[u8])
    ensures
        final(v)@ == old(v)@ + b@,
{
    let mut i: usize = 0;
    while i < b.len()
        invariant
            i <= b@.len(),
            v@ == old(v)@ + b@.subrange(0, i as int),
        decreases b@.len() - i,
    {
        v.push(b[i]);
        i = i + 1;
        assert(v@ =~= old(v)@ + b@.subrange(0, i as int));
    }
    assert(b@.subrange(0, i as int) =~= b@);
}

/// The first `requested_length` bytes of P_hash(secret, seed) for the hash
/// `h`: as many whole blocks as that takes, cut to length.
pub fn prf_p_hash(secret: &[u8], seed: &[u8], requested_length: usize, h: CipherSuiteHash) -> (res:
    Result<Vec<u8>, Error>)
    ensures
        res matches Ok(r) && r@ == spec_prf_p_hash(secret@, seed@, requested_length as nat)
            && r@.len() == requested_length,
{
    let iterations: usize = requested_length / SHA256_SIZE + if requested_length % SHA256_SIZE
        == 0 {
        0
    } else {
        1
    };
    let ghost total = spec_p_hash_blocks(secret@, seed@, seed@, iterations as nat);
    let mut last_round = vstd::slice::slice_to_vec(seed);
    let mut out: Vec<u8> = Vec::new();
    let mut k: usize = 0;
    while k < iterations
        invariant
            k <= iterations,
            iterations == spec_block_count(requested_length as nat),
            total == spec_p_hash_blocks(secret@, seed@, seed@, iterations as nat),
            out@ + spec_p_hash_blocks(secret@, seed@, last_round@, (iterations - k) as nat) == total,
            out@.len() == SHA256_SIZE * k,
        decreases iterations - k,
    {
        let ghost before = out@;
        let ghost a = last_round@;
        last_round = match h {
            CipherSuiteHash::Sha256 => hmac_sha256(secret, last_round.as_slice()),
        };
        let mut last_round_seed = last_round.clone();
        assert(last_round_seed@ =~= last_round@);
        append_bytes(&mut last_round_seed, seed);
        let with_secret = match h {
            CipherSuiteHash::Sha256 => hmac_sha256(secret, last_round_seed.as_slice()),
        };
        append_bytes(&mut out, with_secret.as_slice());
        k = k + 1;
        assert(out@ + spec_p_hash_blocks(secret@, seed@, last_round@, (iterations - k) as nat)
            =~= before + spec_p_hash_blocks(secret@, seed@, a, (iterations - k + 1) as nat));
    }
    assert(out@ =~= total);
    assert(requested_length <= out@.len()) by (nonlinear_arith)
        requires
            out@.len() == SHA256_SIZE * iterations,
            iterations == spec_block_count(requested_length as nat),
    ;
    Ok(take_slice(out.as_slice(), 0, requested_length))
}

/// The keys of both directions of a connection, for MAC keys, write keys
/// and IVs of the given lengths: key material of twice their total length,
/// cut in order.
pub fn prf_encryption_keys(
    master_secret: &[u8],
    client_random: &[u8],
    server_random: &[u8],
    prf_mac_len: usize,
    prf_key_len: usize,
    prf_iv_len: usize,
    h: CipherSuiteHash,
) -> (res: Result<EncryptionKeys, Error>)
    requires
        2 * prf_mac_len + 2 * prf_key_len + 2 * prf_iv_len <= usize::MAX,
    ensures
        res matches Ok(keys) && keys_cut_from(
            keys,
            spec_key_material(
                master_secret@,
                client_random@,
                server_random@,
                (2 * prf_mac_len + 2 * prf_key_len + 2 * prf_iv_len) as nat,
            ),
            master_secret@,
            prf_mac_len as nat,
            prf_key_len as nat,
            prf_iv_len as nat,
        ),
{
    let mut seed: Vec<u8> = Vec::new();
    let label: [u8; 13] = [107, 101, 121, 32, 101, 120, 112, 97, 110, 115, 105, 111, 110];
    append_bytes(&mut seed, &label);
    append_bytes(&mut seed, server_random);
    append_bytes(&mut seed, client_random);
    assert(label@ =~= spec_key_expansion_label());
    let len = 2 * prf_mac_len + 2 * prf_key_len + 2 * prf_iv_len;
    let material = prf_p_hash(master_secret, seed.as_slice(), len, h)?;
    Ok(split_key_material(material.as_slice(), master_secret, prf_mac_len, prf_key_len, prf_iv_len))
}

} // verus!
