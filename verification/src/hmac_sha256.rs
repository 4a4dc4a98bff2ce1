use vstd::prelude::*;

use crate::generator::ConnectionIdGenerator;
use crate::keyed::{HmacKey, KeyedConnectionIdGenerator};
use crate::rng::fill_random;
use std::sync::Arc;

verus! {

/// Maximum length, in bytes, of the raw key material accepted by
/// [`HmacSha256Key::new`]: one block of the underlying hash. Longer keys
/// would first be compressed, which the provider discourages.
pub const MAX_KEY_LEN: usize = 64;

/// The HMAC-SHA256 tag over `data` under a key derived from `key_bytes`: a
/// function of the two byte sequences alone, recomputable by any process on
/// any machine, so its definition need not be spelled out here.
pub uninterp spec fn hmac_sha256_of(key_bytes: Seq<u8>, data: Seq<u8>) -> Seq<u8>;

#[verifier::external_type_specification]
#[verifier::external_body]
pub struct ExRingHmacKey(ring::hmac::Key);

/// An HMAC-SHA256 signing key: a key derived from raw key material, kept
/// beside the ghost of that material so contracts can speak of it.
pub struct HmacSha256Key {
    key: ring::hmac::Key,
    key_bytes: Ghost<Seq<u8>>,
}

impl HmacSha256Key {
    /// The raw key material this key was derived from.
    pub closed spec fn spec_key_bytes(&self) -> Seq<u8> {
        self.key_bytes@
    }
}

/// Relies on `ring::hmac::Key::new` with `ring::hmac::HMAC_SHA256`: derives
/// a signing key from the given raw key material, at most one hash block of
/// it. The derived key is opaque; what it signs is pinned down by
/// [`hmac_sha256_sign`].
#[verifier::external_body]
fn ring_key_from(key_bytes: &[u8]) -> ring::hmac::Key
    requires
        key_bytes@.len() <= MAX_KEY_LEN,
{
    ring::hmac::Key::new(ring::hmac::HMAC_SHA256, key_bytes)
}

/// Relies on `ring::hmac::sign`: the HMAC-SHA256 tag is a function of the
/// key material and the message alone, and is 32 bytes long, the output
/// length of SHA-256.
#[verifier::external_body]
fn hmac_sha256_sign(key: &HmacSha256Key, data: &[u8]) -> (signature: Vec<u8>)
    requires
        data@.len() <= crate::MAX_CID_SIZE,
    ensures
        signature@ == hmac_sha256_of(key.spec_key_bytes(), data@),
        signature@.len() == 32,
{
    let tag = ring::hmac::sign(&key.key, data);
    tag.as_ref().to_vec()
}

impl HmacSha256Key {
    /// Derive a signing key from the given raw key material.
    pub fn new(key_bytes: &[u8]) -> (key: Self)
        requires
            key_bytes@.len() <= MAX_KEY_LEN,
        ensures
            key.spec_key_bytes() == key_bytes@,
    {
        HmacSha256Key { key: ring_key_from(key_bytes), key_bytes: Ghost(key_bytes@) }
    }
}

impl HmacKey for HmacSha256Key {
    open spec fn spec_signature_len(&self) -> nat {
        32
    }

    open spec fn spec_sign(&self, data: Seq<u8>) -> Seq<u8> {
        hmac_sha256_of(self.spec_key_bytes(), data)
    }

    fn signature_len(&self) -> (n: usize) {
        32
    }

    fn sign(&self, data: &[u8]) -> (signature: Vec<u8>) {
        hmac_sha256_sign(self, data)
    }
}

impl KeyedConnectionIdGenerator<HmacSha256Key> {
    /// Create a generator with a fresh random HMAC-SHA256 key.
    pub fn new() -> (generator: Self)
        ensures
            generator.spec_cid_lifetime() is None,
    {
        let mut key_bytes: Vec<u8> = vec![0u8; MAX_KEY_LEN];
        fill_random(&mut key_bytes);
        let key = HmacSha256Key::new(key_bytes.as_slice());
        Self::from_key(Arc::new(key))
    }
}

impl Default for KeyedConnectionIdGenerator<HmacSha256Key> {
    /// A generator with a fresh random key.
    fn default() -> (generator: Self)
        ensures
            generator.spec_cid_lifetime() is None,
    {
        Self::new()
    }
}

} // verus!
