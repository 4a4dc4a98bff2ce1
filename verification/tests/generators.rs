use std::sync::Arc;
use std::time::Duration;

use cid_generator::cid::ConnectionId;
use cid_generator::generator::{ConnectionIdGenerator, RandomConnectionIdGenerator};
use cid_generator::hmac_sha256::HmacSha256Key;
use cid_generator::keyed::{KeyedConnectionIdGenerator, NONCE_LEN, SIGNATURE_LEN};
use cid_generator::MAX_CID_SIZE;

fn keyed_from_bytes(key_bytes: &[u8]) -> KeyedConnectionIdGenerator<HmacSha256Key> {
    KeyedConnectionIdGenerator::from_key(Arc::new(HmacSha256Key::new(key_bytes)))
}

#[test]
fn validate_keyed_cid() {
    let mut generator = KeyedConnectionIdGenerator::new();
    let cid = generator.generate_cid();
    generator.validate(&cid).unwrap();
}

#[test]
fn random_cid_lengths() {
    for len in 0..=MAX_CID_SIZE {
        let mut generator = RandomConnectionIdGenerator::new(len);
        assert_eq!(generator.cid_len(), len);
        for _ in 0..20 {
            let cid = generator.generate_cid();
            assert_eq!(cid.len(), len);
            assert_eq!(cid.to_vec().len(), len);
        }
    }
}

#[test]
fn keyed_cid_roundtrip() {
    let mut generator = keyed_from_bytes(&[7u8; 32]);
    for _ in 0..200 {
        let cid = generator.generate_cid();
        assert_eq!(cid.len(), NONCE_LEN + SIGNATURE_LEN);
        assert!(generator.validate(&cid).is_ok());
    }
}

#[test]
fn keyed_cid_bit_flip_rejected() {
    let mut generator = keyed_from_bytes(&[42u8; 32]);
    let cid = generator.generate_cid();
    let bytes = cid.to_vec();
    for position in 0..bytes.len() {
        for bit in 0..8 {
            let mut mutated = bytes.clone();
            mutated[position] ^= 1u8 << bit;
            let mutated_cid = ConnectionId::new(&mutated);
            assert!(generator.validate(&mutated_cid).is_err());
        }
    }
}

#[test]
fn keyed_cid_cross_key_rejected() {
    let mut first = keyed_from_bytes(&[1u8; 32]);
    let mut second = keyed_from_bytes(&[2u8; 32]);
    for _ in 0..100 {
        let from_first = first.generate_cid();
        let from_second = second.generate_cid();
        assert!(first.validate(&from_first).is_ok());
        assert!(second.validate(&from_second).is_ok());
        assert!(first.validate(&from_second).is_err());
        assert!(second.validate(&from_first).is_err());
    }
}

#[test]
fn random_generator_validate_accepts_everything() {
    let default_generator = RandomConnectionIdGenerator::default();
    assert_eq!(default_generator.cid_len(), 8);
    let mut other = RandomConnectionIdGenerator::new(4);
    let inputs: [&[u8]; 5] = [
        &[],
        &[0u8],
        &[1, 2, 3, 4, 5, 6, 7, 8],
        &[0xff; 20],
        &[9, 9, 9],
    ];
    for input in inputs {
        let cid = ConnectionId::new(input);
        assert!(default_generator.validate(&cid).is_ok());
        assert!(other.validate(&cid).is_ok());
    }
    for _ in 0..50 {
        let cid = other.generate_cid();
        assert!(default_generator.validate(&cid).is_ok());
    }
}

#[test]
fn keyed_cid_scenario() {
    // Nonce length 3 and signature length 5 give identifiers of exactly 8
    // bytes. Issue 10,000 of them from one generator: each validates under
    // it, and nonce collisions stay within the birthday bound for 10,000
    // draws from a 3-byte space (about three expected collisions).
    assert_eq!(NONCE_LEN, 3);
    assert_eq!(SIGNATURE_LEN, 5);
    let mut generator = KeyedConnectionIdGenerator::new();
    assert_eq!(generator.cid_len(), 8);
    let mut nonces: Vec<Vec<u8>> = Vec::new();
    for _ in 0..10_000 {
        let cid = generator.generate_cid();
        assert_eq!(cid.len(), 8);
        assert!(generator.validate(&cid).is_ok());
        nonces.push(cid.to_vec()[..NONCE_LEN].to_vec());
    }
    nonces.sort();
    let mut distinct: usize = 1;
    for i in 1..nonces.len() {
        if nonces[i] != nonces[i - 1] {
            distinct += 1;
        }
    }
    assert!(distinct >= 9_900, "too many nonce collisions: {distinct} distinct of 10000");
}

#[test]
fn random_cid_bytes_vary() {
    let mut generator = RandomConnectionIdGenerator::new(8);
    let mut all_bytes: Vec<u8> = Vec::new();
    for _ in 0..1_000 {
        all_bytes.extend(generator.generate_cid().to_vec());
    }
    let first = all_bytes[0];
    assert!(all_bytes.iter().any(|&b| b != first));
}

#[test]
fn keyed_signature_matches_provider() {
    // The embedded signature field must be the leading bytes of the real
    // HMAC-SHA256 tag over the nonce, computed here independently.
    let key_bytes = [0xabu8; 32];
    let mut generator = keyed_from_bytes(&key_bytes);
    for _ in 0..20 {
        let bytes = generator.generate_cid().to_vec();
        let provider_key = ring::hmac::Key::new(ring::hmac::HMAC_SHA256, &key_bytes);
        let tag = ring::hmac::sign(&provider_key, &bytes[..NONCE_LEN]);
        assert_eq!(&bytes[NONCE_LEN..], &tag.as_ref()[..SIGNATURE_LEN]);
    }
}

#[test]
fn keyed_rejects_wrong_length() {
    let mut generator = keyed_from_bytes(&[5u8; 32]);
    let issued = generator.generate_cid().to_vec();
    assert!(generator.validate(&ConnectionId::new(&[])).is_err());
    assert!(generator.validate(&ConnectionId::new(&issued[..7])).is_err());
    let mut extended = issued.clone();
    extended.push(0);
    assert!(generator.validate(&ConnectionId::new(&extended)).is_err());
}

#[test]
fn shared_key_validates_across_generators() {
    let key_bytes = [17u8; 64];
    let mut issuer = keyed_from_bytes(&key_bytes);
    let validator = keyed_from_bytes(&key_bytes);
    for _ in 0..100 {
        let cid = issuer.generate_cid();
        assert!(validator.validate(&cid).is_ok());
    }
}

#[test]
fn lifetime_accessors() {
    let mut random_generator = RandomConnectionIdGenerator::new(6);
    assert_eq!(random_generator.cid_lifetime(), None);
    random_generator.set_lifetime(Duration::from_secs(30));
    assert_eq!(random_generator.cid_lifetime(), Some(Duration::from_secs(30)));
    random_generator
        .set_lifetime(Duration::from_secs(1))
        .set_lifetime(Duration::from_secs(2));
    assert_eq!(random_generator.cid_lifetime(), Some(Duration::from_secs(2)));

    let mut keyed_generator = keyed_from_bytes(&[3u8; 32]);
    assert_eq!(keyed_generator.cid_lifetime(), None);
    keyed_generator.set_lifetime(Duration::from_millis(1500));
    assert_eq!(keyed_generator.cid_lifetime(), Some(Duration::from_millis(1500)));
}

#[test]
fn connection_id_is_a_byte_value() {
    let cid = ConnectionId::new(&[1, 2, 3, 4]);
    assert_eq!(cid.len(), 4);
    assert_eq!(cid.to_vec(), vec![1, 2, 3, 4]);
    assert_eq!(cid.as_slice(), &[1, 2, 3, 4]);
    let copy = cid.clone();
    assert!(copy == cid);
    assert!(ConnectionId::new(&[1, 2, 3]) != cid);
    assert!(ConnectionId::new(&[1, 2, 3, 5]) != cid);
}
