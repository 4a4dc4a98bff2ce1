use vstd::prelude::*;

use crate::cid::ConnectionId;
use crate::generator::{ConnectionIdGenerator, InvalidCid};
use crate::rng::fill_random;
use crate::MAX_CID_SIZE;
use std::sync::Arc;
use std::time::Duration;

verus! {

/// Number of random bytes at the front of a keyed identifier. Three bytes
/// are good for more than sixteen million concurrent connections.
pub const NONCE_LEN: usize = 3;

/// Number of signature bytes embedded after the nonce, for an eight-byte
/// identifier in total. Forgery then requires guessing forty signature bits.
pub const SIGNATURE_LEN: usize = 5;

/// Hard ceiling on the raw signature length of any pluggable signing key.
/// A key must stay below it; the generator always truncates the signature
/// to [`SIGNATURE_LEN`] bytes before embedding it.
pub const MAX_SIGNATURE_LEN: usize = 128;

/// A keyed-hash signing capability, supplied by a cryptography provider.
///
/// The key is immutable once constructed, and its signature is a function of
/// the key and the signed data alone, so any holder of the key can recompute
/// it; that is what makes stateless validation possible.
pub trait HmacKey: Send + Sync + Sized {
    /// Length of the raw signatures this key produces.
    spec fn spec_signature_len(&self) -> nat;

    /// The raw signature of `data` under this key.
    spec fn spec_sign(&self, data: Seq<u8>) -> Seq<u8>;

    /// Length of the raw signatures this key produces; constant for the
    /// key's lifetime.
    fn signature_len(&self) -> (n: usize)
        ensures
            n == self.spec_signature_len(),
    ;

    /// Sign `data`, returning the full raw signature. A generator only ever
    /// signs nonces, which fit in an identifier; the bound keeps every
    /// pluggable primitive comfortably inside its input limit.
    fn sign(&self, data: &[u8]) -> (signature: Vec<u8>)
        requires
            data@.len() <= MAX_CID_SIZE,
        ensures
            signature@ == self.spec_sign(data@),
            signature@.len() == self.spec_signature_len(),
    ;
}

/// The signature field embedded in a keyed identifier: the first
/// [`SIGNATURE_LEN`] bytes of the raw signature, zero-padded on the right if
/// the raw signature is shorter than the field.
pub open spec fn truncated_signature(raw: Seq<u8>) -> Seq<u8> {
    Seq::new(
        SIGNATURE_LEN as nat,
        |i: int| if i < raw.len() { raw[i] } else { 0u8 },
    )
}

/// Whether `cid` is laid out as `key` lays out the identifiers it issues: a
/// nonce of [`NONCE_LEN`] bytes followed by the truncated signature of that
/// nonce under `key`.
pub open spec fn keyed_cid_ok<K: HmacKey>(key: K, cid: Seq<u8>) -> bool {
    &&& cid.len() == NONCE_LEN + SIGNATURE_LEN
    &&& cid.skip(NONCE_LEN as int) == truncated_signature(
        key.spec_sign(cid.take(NONCE_LEN as int)),
    )
}

/// Generates eight-byte connection identifiers that can be efficiently
/// validated without a table of issued values: each identifier is a random
/// nonce followed by the truncated signature of that nonce under a shared
/// signing key, so any generator holding the same key recognises it.
pub struct KeyedConnectionIdGenerator<K: HmacKey> {
    key: Arc<K>,
    lifetime: Option<Duration>,
}

impl<K: HmacKey> KeyedConnectionIdGenerator<K> {
    /// The signing key this generator holds.
    pub closed spec fn spec_key(&self) -> K {
        *self.key
    }

    #[verifier::type_invariant]
    spec fn wf(self) -> bool {
        self.spec_key().spec_signature_len() < MAX_SIGNATURE_LEN
    }

    /// Create a generator with a specific key. The key's raw signature
    /// length must stay below [`MAX_SIGNATURE_LEN`], the space reserved for
    /// it; a key that reports a longer signature is a configuration error,
    /// surfaced before any identifier is issued.
    pub fn from_key(key: Arc<K>) -> (generator: Self)
        requires
            key.spec_signature_len() < MAX_SIGNATURE_LEN,
        ensures
            generator.spec_key() == *key,
            generator.spec_cid_lifetime() is None,
    {
        KeyedConnectionIdGenerator { key, lifetime: None }
    }

    /// Set the lifetime of identifiers created by this generator.
    pub fn set_lifetime(&mut self, d: Duration) -> (generator: &mut Self)
        ensures
            generator.spec_key() == old(self).spec_key(),
            generator.spec_cid_lifetime() == Some(d),
            *final(self) == *final(generator),
    {
        proof {
            use_type_invariant(&*self);
        }
        self.lifetime = Some(d);
        self
    }
}

impl<K: HmacKey> ConnectionIdGenerator for KeyedConnectionIdGenerator<K> {
    open spec fn spec_cid_len(&self) -> nat {
        (NONCE_LEN + SIGNATURE_LEN) as nat
    }

    closed spec fn spec_cid_lifetime(&self) -> Option<Duration> {
        self.lifetime
    }

    /// Recognised identifiers are exactly those laid out as this
    /// generator's key issues them.
    open spec fn accepts(&self, cid: Seq<u8>) -> bool {
        keyed_cid_ok(self.spec_key(), cid)
    }

    fn generate_cid(&mut self) -> (cid: ConnectionId)
        ensures
            *final(self) == *old(self),
    {
        proof {
            use_type_invariant(&*self);
        }
        let ghost key_snap: K = self.spec_key();
        let mut bytes: Vec<u8> = vec![0u8; NONCE_LEN];
        fill_random(&mut bytes);
        let ghost nonce: Seq<u8> = bytes@;
        let raw = self.key.sign(bytes.as_slice());
        let ghost field: Seq<u8> = truncated_signature(raw@);
        let mut i: usize = 0;
        while i < SIGNATURE_LEN
            invariant
                i <= SIGNATURE_LEN,
                nonce.len() == NONCE_LEN,
                raw@ == key_snap.spec_sign(nonce),
                field == truncated_signature(raw@),
                bytes@.len() == NONCE_LEN + i,
                bytes@.take(NONCE_LEN as int) == nonce,
                forall|j: int| 0 <= j < i ==> bytes@[NONCE_LEN + j] == field[j],
            decreases SIGNATURE_LEN - i,
        {
            let b: u8 = if i < raw.len() {
                raw[i]
            } else {
                0u8
            };
            let ghost prev = bytes@;
            bytes.push(b);
            proof {
                assert(bytes@.take(NONCE_LEN as int) =~= prev.take(NONCE_LEN as int));
            }
            i += 1;
        }
        let cid = ConnectionId::new(bytes.as_slice());
        proof {
            assert(cid@.take(NONCE_LEN as int) == nonce);
            assert(cid@.skip(NONCE_LEN as int) =~= field);
            assert(keyed_cid_ok(key_snap, cid@));
        }
        cid
    }

    fn cid_len(&self) -> (n: usize) {
        NONCE_LEN + SIGNATURE_LEN
    }

    fn cid_lifetime(&self) -> (lifetime: Option<Duration>) {
        self.lifetime
    }

    /// Split the identifier into nonce and claimed signature, recompute the
    /// signature of the nonce under the held key, and compare the embedded
    /// field without an early exit. Identifiers of any other length,
    /// including short ones, are simply invalid.
    fn validate(&self, cid: &ConnectionId) -> (r: Result<(), InvalidCid>) {
        let bytes = cid.as_slice();
        if bytes.len() != NONCE_LEN + SIGNATURE_LEN {
            return Err(InvalidCid);
        }
        let nonce = &bytes[0..NONCE_LEN];
        proof {
            assert(nonce@ == cid@.take(NONCE_LEN as int));
        }
        let raw = self.key.sign(nonce);
        let ghost field: Seq<u8> = truncated_signature(raw@);
        let mut same: bool = true;
        let mut i: usize = 0;
        while i < SIGNATURE_LEN
            invariant
                i <= SIGNATURE_LEN,
                bytes@ == cid@,
                cid@.len() == NONCE_LEN + SIGNATURE_LEN,
                raw@ == self.spec_key().spec_sign(cid@.take(NONCE_LEN as int)),
                field == truncated_signature(raw@),
                same <==> (forall|j: int| 0 <= j < i ==> cid@[NONCE_LEN + j] == field[j]),
            decreases SIGNATURE_LEN - i,
        {
            let expected: u8 = if i < raw.len() {
                raw[i]
            } else {
                0u8
            };
            let actual: u8 = bytes[NONCE_LEN + i];
            let here: bool = expected == actual;
            proof {
                let i0 = i as int;
                assert(cid@[NONCE_LEN + i0] == actual);
                assert(field[i0] == expected);
                if same && here {
                    assert forall|j: int| 0 <= j < i0 + 1 implies cid@[NONCE_LEN + j]
                        == field[j] by {}
                } else if same {
                    assert(!(0 <= i0 < i0 + 1 ==> cid@[NONCE_LEN + i0] == field[i0]));
                } else {
                    let j = choose|j: int|
                        !(0 <= j < i0 ==> cid@[NONCE_LEN + j] == field[j]);
                    assert(!(0 <= j < i0 + 1 ==> cid@[NONCE_LEN + j] == field[j]));
                }
            }
            same = same && here;
            i += 1;
        }
        if same {
            proof {
                assert(cid@.skip(NONCE_LEN as int) =~= field);
            }
            Ok(())
        } else {
            proof {
                assert(cid@.skip(NONCE_LEN as int) != field) by {
                    let j = choose|j: int|
                        0 <= j < SIGNATURE_LEN && cid@[NONCE_LEN + j] != field[j];
                    assert(cid@.skip(NONCE_LEN as int)[j] == cid@[NONCE_LEN + j]);
                }
            }
            Err(InvalidCid)
        }
    }
}

/// Law: validation is stateless. Two keyed generators holding equal keys
/// recognise exactly the same identifiers, whichever of them issued one.
pub proof fn lemma_validation_stateless<K: HmacKey>(
    a: KeyedConnectionIdGenerator<K>,
    b: KeyedConnectionIdGenerator<K>,
    cid: Seq<u8>,
)
    requires
        a.spec_key() == b.spec_key(),
    ensures
        a.accepts(cid) == b.accepts(cid),
{
}

/// Law: tampering with the signature field of a recognised identifier is
/// always detected. Changing anything behind the nonce of an identifier the
/// key recognises yields one it rejects. (A change to the nonce itself is
/// also rejected unless the new nonce's signature happens to collide, which
/// no contract of a signing key can rule out, so that case is not stated.)
pub proof fn lemma_signature_tamper_rejected<K: HmacKey>(
    key: K,
    cid: Seq<u8>,
    tampered: Seq<u8>,
)
    requires
        keyed_cid_ok(key, cid),
        tampered.len() == cid.len(),
        tampered.take(NONCE_LEN as int) == cid.take(NONCE_LEN as int),
        tampered != cid,
    ensures
        !keyed_cid_ok(key, tampered),
{
    if keyed_cid_ok(key, tampered) {
        assert(tampered.skip(NONCE_LEN as int) == cid.skip(NONCE_LEN as int));
        assert forall|j: int| 0 <= j < cid.len() implies tampered[j] == cid[j] by {
            if j < NONCE_LEN {
                assert(tampered[j] == tampered.take(NONCE_LEN as int)[j]);
                assert(cid[j] == cid.take(NONCE_LEN as int)[j]);
            } else {
                assert(tampered[j] == tampered.skip(NONCE_LEN as int)[j - NONCE_LEN]);
                assert(cid[j] == cid.skip(NONCE_LEN as int)[j - NONCE_LEN]);
            }
        }
        assert(tampered =~= cid);
    }
}

} // verus!
