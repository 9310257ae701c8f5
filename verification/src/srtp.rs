//! SRTP protection profiles (RFC 5764, RFC 7714): the cipher and
//! authentication tag details of each, as a TLS cipher suite gives them.
use vstd::prelude::*;

verus! {

/// An SRTP protection profile.
#[derive(Debug, Clone, Copy, PartialEq, Eq, Structural, Default)]
pub enum ProtectionProfile {
    /// AES-128 counter mode with an 80-bit HMAC-SHA1 tag.
    #[default]
    Aes128CmHmacSha1_80,
    /// AES-128 counter mode with a 32-bit HMAC-SHA1 tag.
    Aes128CmHmacSha1_32,
    /// AES-256 counter mode with an 80-bit HMAC-SHA1 tag.
    Aes256CmHmacSha1_80,
    /// AES-256 counter mode with a 32-bit HMAC-SHA1 tag.
    Aes256CmHmacSha1_32,
    /// AEAD AES-128-GCM.
    AeadAes128Gcm,
    /// AEAD AES-256-GCM.
    AeadAes256Gcm,
}

/// The length of the master key.
pub open spec fn spec_key_len(p: ProtectionProfile) -> usize {
    match p {
        ProtectionProfile::Aes128CmHmacSha1_80 => 16,
        ProtectionProfile::Aes128CmHmacSha1_32 => 16,
        ProtectionProfile::Aes256CmHmacSha1_80 => 32,
        ProtectionProfile::Aes256CmHmacSha1_32 => 32,
        ProtectionProfile::AeadAes128Gcm => 16,
        ProtectionProfile::AeadAes256Gcm => 32,
    }
}

/// The length of the master salt.
pub open spec fn spec_salt_len(p: ProtectionProfile) -> usize {
    match p {
        ProtectionProfile::Aes128CmHmacSha1_80 => 14,
        ProtectionProfile::Aes128CmHmacSha1_32 => 14,
        ProtectionProfile::Aes256CmHmacSha1_80 => 14,
        ProtectionProfile::Aes256CmHmacSha1_32 => 14,
        ProtectionProfile::AeadAes128Gcm => 12,
        ProtectionProfile::AeadAes256Gcm => 12,
    }
}

/// The length of the authentication tag of an SRTP packet (none for AEAD profiles, whose tag is the AEAD tag).
pub open spec fn spec_rtp_auth_tag_len(p: ProtectionProfile) -> usize {
    match p {
        ProtectionProfile::Aes128CmHmacSha1_80 => 10,
        ProtectionProfile::Aes128CmHmacSha1_32 => 4,
        ProtectionProfile::Aes256CmHmacSha1_80 => 10,
        ProtectionProfile::Aes256CmHmacSha1_32 => 4,
        ProtectionProfile::AeadAes128Gcm => 0,
        ProtectionProfile::AeadAes256Gcm => 0,
    }
}

/// The length of the authentication tag of an SRTCP packet (none for AEAD profiles).
pub open spec fn spec_rtcp_auth_tag_len(p: ProtectionProfile) -> usize {
    match p {
        ProtectionProfile::Aes128CmHmacSha1_80 => 10,
        ProtectionProfile::Aes128CmHmacSha1_32 => 10,
        ProtectionProfile::Aes256CmHmacSha1_80 => 10,
        ProtectionProfile::Aes256CmHmacSha1_32 => 10,
        ProtectionProfile::AeadAes128Gcm => 0,
        ProtectionProfile::AeadAes256Gcm => 0,
    }
}

/// The length of the AEAD authentication tag (none for the HMAC-SHA1 profiles).
pub open spec fn spec_aead_auth_tag_len(p: ProtectionProfile) -> usize {
    match p {
        ProtectionProfile::Aes128CmHmacSha1_80 => 0,
        ProtectionProfile::Aes128CmHmacSha1_32 => 0,
        ProtectionProfile::Aes256CmHmacSha1_80 => 0,
        ProtectionProfile::Aes256CmHmacSha1_32 => 0,
        ProtectionProfile::AeadAes128Gcm => 16,
        ProtectionProfile::AeadAes256Gcm => 16,
    }
}

/// The length of the authentication key (none for AEAD profiles).
pub open spec fn spec_auth_key_len(p: ProtectionProfile) -> usize {
    match p {
        ProtectionProfile::Aes128CmHmacSha1_80 => 20,
        ProtectionProfile::Aes128CmHmacSha1_32 => 20,
        ProtectionProfile::Aes256CmHmacSha1_80 => 20,
        ProtectionProfile::Aes256CmHmacSha1_32 => 20,
        ProtectionProfile::AeadAes128Gcm => 0,
        ProtectionProfile::AeadAes256Gcm => 0,
    }
}

impl ProtectionProfile {
    /// The length of the master key.
    pub fn key_len(&self) -> (r: usize)
        ensures
            r == spec_key_len(*self),
    {
        match *self {
            ProtectionProfile::Aes128CmHmacSha1_80 | ProtectionProfile::Aes128CmHmacSha1_32 | ProtectionProfile::AeadAes128Gcm => 16,
            ProtectionProfile::Aes256CmHmacSha1_80 | ProtectionProfile::Aes256CmHmacSha1_32 | ProtectionProfile::AeadAes256Gcm => 32,
        }
    }

    /// The length of the master salt.
    pub fn salt_len(&self) -> (r: usize)
        ensures
            r == spec_salt_len(*self),
    {
        match *self {
            ProtectionProfile::Aes128CmHmacSha1_80 | ProtectionProfile::Aes128CmHmacSha1_32 | ProtectionProfile::Aes256CmHmacSha1_80 | ProtectionProfile::Aes256CmHmacSha1_32 => 14,
            ProtectionProfile::AeadAes128Gcm | ProtectionProfile::AeadAes256Gcm => 12,
        }
    }

    /// The length of the authentication tag of an SRTP packet (none for AEAD profiles, whose tag is the AEAD tag).
    pub fn rtp_auth_tag_len(&self) -> (r: usize)
        ensures
            r == spec_rtp_auth_tag_len(*self),
    {
        match *self {
            ProtectionProfile::Aes128CmHmacSha1_80 | ProtectionProfile::Aes256CmHmacSha1_80 => 10,
            ProtectionProfile::Aes128CmHmacSha1_32 | ProtectionProfile::Aes256CmHmacSha1_32 => 4,
            ProtectionProfile::AeadAes128Gcm | ProtectionProfile::AeadAes256Gcm => 0,
        }
    }

    /// The length of the authentication tag of an SRTCP packet (none for AEAD profiles).
    pub fn rtcp_auth_tag_len(&self) -> (r: usize)
        ensures
            r == spec_rtcp_auth_tag_len(*self),
    {
        match *self {
            ProtectionProfile::Aes128CmHmacSha1_80 | ProtectionProfile::Aes128CmHmacSha1_32 | ProtectionProfile::Aes256CmHmacSha1_80 | ProtectionProfile::Aes256CmHmacSha1_32 => 10,
            ProtectionProfile::AeadAes128Gcm | ProtectionProfile::AeadAes256Gcm => 0,
        }
    }

    /// The length of the AEAD authentication tag (none for the HMAC-SHA1 profiles).
    pub fn aead_auth_tag_len(&self) -> (r: usize)
        ensures
            r == spec_aead_auth_tag_len(*self),
    {
        match *self {
            ProtectionProfile::Aes128CmHmacSha1_80 | ProtectionProfile::Aes128CmHmacSha1_32 | ProtectionProfile::Aes256CmHmacSha1_80 | ProtectionProfile::Aes256CmHmacSha1_32 => 0,
            ProtectionProfile::AeadAes128Gcm | ProtectionProfile::AeadAes256Gcm => 16,
        }
    }

    /// The length of the authentication key (none for AEAD profiles).
    pub fn auth_key_len(&self) -> (r: usize)
        ensures
            r == spec_auth_key_len(*self),
    {
        match *self {
            ProtectionProfile::Aes128CmHmacSha1_80 | ProtectionProfile::Aes128CmHmacSha1_32 | ProtectionProfile::Aes256CmHmacSha1_80 | ProtectionProfile::Aes256CmHmacSha1_32 => 20,
            ProtectionProfile::AeadAes128Gcm | ProtectionProfile::AeadAes256Gcm => 0,
        }
    }
}

/// A profile has an HMAC-SHA1 authentication key exactly when it has an
/// SRTCP authentication tag, and an AEAD tag exactly when it has neither.
pub proof fn lemma_profile_tags(p: ProtectionProfile)
    ensures
        (spec_auth_key_len(p) == 0) == (spec_rtcp_auth_tag_len(p) == 0),
        (spec_aead_auth_tag_len(p) == 0) == (spec_auth_key_len(p) != 0),
        spec_rtp_auth_tag_len(p) <= spec_rtcp_auth_tag_len(p),
{
}

} // verus!
