//! Byte-level behaviour of the signing domain: known vectors, round
//! trips, tamper detection, output sizes and status codes.

use crypto_bridge::ed25519::{derive_public_key, generate_secret_key, sign_message,
    verify_signature, SigningError};

fn vector_sk() -> Vec<u8> {
    hex::decode("4ccd089b28ff96da9db6c346ec114e0f5b8a319f35aba624da8cf6ed4fb8a6fb").unwrap()
}

fn vector_pk() -> Vec<u8> {
    hex::decode("3d4017c3e843895a92b70aa74d1b7ebc9c982ccf2ec4968cc0cd55f12af4660c").unwrap()
}

fn vector_msg() -> Vec<u8> {
    vec![0x72u8]
}

fn vector_sig() -> Vec<u8> {
    hex::decode(
        "92a009a9f0d4cab8720e820b5f642540a2b27b5416503f8fb3762223ebdb69da\
         085ac1e43e15996e458f3613d0f11d8c387b2eaeb4302aeeb00d291612bb0c00",
    )
    .unwrap()
}

#[test]
fn fixed_vector_public_key() {
    let pk = derive_public_key(&vector_sk()).unwrap();
    assert_eq!(pk, vector_pk());
}

#[test]
fn fixed_vector_signature() {
    let sig = sign_message(&vector_sk(), &vector_msg()).unwrap();
    assert_eq!(sig, vector_sig());
}

#[test]
fn fixed_vector_verifies() {
    assert!(verify_signature(&vector_pk(), &vector_msg(), &vector_sig()).is_ok());
}

#[test]
fn fixed_vector_rejects_changed_message() {
    let other = vec![0x73u8];
    let r = verify_signature(&vector_pk(), &other, &vector_sig());
    assert_eq!(r.unwrap_err(), SigningError::VerificationFailed);
}

#[test]
fn sign_then_verify_round_trip() {
    let sk = generate_secret_key();
    let pk = derive_public_key(&sk).unwrap();
    for msg in [b"".to_vec(), b"test".to_vec(), vec![0u8; 1000]] {
        let sig = sign_message(&sk, &msg).unwrap();
        assert!(verify_signature(&pk, &msg, &sig).is_ok());
    }
}

#[test]
fn tampered_message_rejected() {
    let sk = generate_secret_key();
    let pk = derive_public_key(&sk).unwrap();
    let msg = b"test".to_vec();
    let sig = sign_message(&sk, &msg).unwrap();
    for byte in 0..msg.len() {
        for bit in 0..8 {
            let mut tampered = msg.clone();
            tampered[byte] ^= 1u8 << bit;
            assert!(verify_signature(&pk, &tampered, &sig).is_err());
        }
    }
}

#[test]
fn tampered_signature_rejected() {
    let sk = generate_secret_key();
    let pk = derive_public_key(&sk).unwrap();
    let msg = b"test".to_vec();
    let sig = sign_message(&sk, &msg).unwrap();
    for byte in [0usize, 10, 31, 32, 40, 63] {
        for bit in 0..8 {
            let mut tampered = sig.clone();
            tampered[byte] ^= 1u8 << bit;
            assert!(verify_signature(&pk, &msg, &tampered).is_err());
        }
    }
}

#[test]
fn output_sizes_are_fixed() {
    let sk = generate_secret_key();
    assert_eq!(sk.len(), 32);
    let pk = derive_public_key(&sk).unwrap();
    assert_eq!(pk.len(), 32);
    let sig = sign_message(&sk, &b"sized".to_vec()).unwrap();
    assert_eq!(sig.len(), 64);
}

#[test]
fn short_secret_key_code() {
    let e = sign_message(&vec![0u8; 31], &b"m".to_vec()).unwrap_err();
    assert_eq!(e, SigningError::MalformedSecretKey);
    assert_eq!(e.code(), 2);
    let e = derive_public_key(&vec![0u8; 33]).unwrap_err();
    assert_eq!(e.code(), 2);
}

#[test]
fn malformed_public_key_code() {
    // About half of all 32-byte strings are not a valid point encoding;
    // walk the candidates with one varying byte until one fails to
    // decode, and check the code it reports.
    let msg = b"m".to_vec();
    let mut hit = false;
    for b in 0u8..=255 {
        let mut pk = vec![0u8; 32];
        pk[0] = b;
        if verify_signature(&pk, &msg, &vector_sig())
            == Err(SigningError::MalformedPublicKey)
        {
            hit = true;
            break;
        }
    }
    assert!(hit, "no invalid point encoding found among the candidates");
    // Wrong length is malformed too.
    let e = verify_signature(&vec![0u8; 31], &b"m".to_vec(), &vector_sig()).unwrap_err();
    assert_eq!(e, SigningError::MalformedPublicKey);
    assert_eq!(e.code(), 3);
}

#[test]
fn short_signature_code() {
    let e = verify_signature(&vector_pk(), &vector_msg(), &vec![0u8; 63]).unwrap_err();
    assert_eq!(e, SigningError::MalformedSignature);
    assert_eq!(e.code(), 1);
}

#[test]
fn verification_failure_code() {
    let sk = generate_secret_key();
    let pk = derive_public_key(&sk).unwrap();
    let sig = sign_message(&sk, &b"one".to_vec()).unwrap();
    let e = verify_signature(&pk, &b"two".to_vec(), &sig).unwrap_err();
    assert_eq!(e.code(), 4);
}
