//! Ed25519 key handling, signing and verification.
//!
//! Keys and signatures cross the bridge as raw byte vectors: 32 bytes for a
//! secret or public key, 64 bytes for a signature.  The signing primitives
//! themselves are supplied by the `ed25519_dalek` crate; this module pins
//! down the bridge's byte-level behaviour around them, in particular which
//! status code each malformed input produces.

use vstd::prelude::*;
use crate::codes::{MALFORMED_PUBLIC_KEY, MALFORMED_SECRET_KEY, NATIVE_CONVERSION_ERROR,
    SIGNATURE_VERIFICATION_FAILURE};
use ed25519_dalek::Signer;
use ed25519_dalek::Verifier;

verus! {

/// The Ed25519 signature of `msg` under the secret key `sk`; signing is
/// deterministic, so the signature is a function of the two alone.
pub uninterp spec fn ed_signature(sk: Seq<u8>, msg: Seq<u8>) -> Seq<u8>;

/// The Ed25519 public key derived from the 32-byte secret key `sk`.
pub uninterp spec fn ed_public_key(sk: Seq<u8>) -> Seq<u8>;

/// Whether the 32 bytes `pk` decode to a valid Ed25519 public key point.
pub uninterp spec fn ed_pk_decodes(pk: Seq<u8>) -> bool;

/// Whether `sig` is a signature on `msg` that verifies under `pk`.
pub uninterp spec fn ed_verifies(pk: Seq<u8>, msg: Seq<u8>, sig: Seq<u8>) -> bool;

/// Relies on `ed25519_dalek::SigningKey::sign` (RFC 8032 Ed25519): signing
/// is deterministic, the signature is 64 bytes, and a signature produced
/// this way verifies under the public key derived from the same secret key.
#[verifier::external_body]
fn dalek_sign(sk: &Vec<u8>, msg: &Vec<u8>) -> (sig: Vec<u8>)
    requires
        sk@.len() == 32,
    ensures
        sig@.len() == 64,
        sig@ == ed_signature(sk@, msg@),
        ed_verifies(ed_public_key(sk@), msg@, sig@),
{
    let key = ed25519_dalek::SigningKey::from_bytes(sk.as_slice().try_into().unwrap());
    key.sign(msg.as_slice()).to_bytes().to_vec()
}

/// Relies on `ed25519_dalek::SigningKey::verifying_key`: the public key is
/// a function of the secret key, is 32 bytes, and decodes back to a valid
/// public key point.
#[verifier::external_body]
fn dalek_derive_public(sk: &Vec<u8>) -> (pk: Vec<u8>)
    requires
        sk@.len() == 32,
    ensures
        pk@.len() == 32,
        pk@ == ed_public_key(sk@),
        ed_pk_decodes(pk@),
{
    let key = ed25519_dalek::SigningKey::from_bytes(sk.as_slice().try_into().unwrap());
    key.verifying_key().to_bytes().to_vec()
}

/// Relies on `ed25519_dalek::VerifyingKey::from_bytes`: it succeeds exactly
/// when the 32 bytes are a valid compressed point encoding.
#[verifier::external_body]
fn dalek_pk_decodes(pk: &Vec<u8>) -> (ok: bool)
    requires
        pk@.len() == 32,
    ensures
        ok == ed_pk_decodes(pk@),
{
    ed25519_dalek::VerifyingKey::from_bytes(pk.as_slice().try_into().unwrap()).is_ok()
}

/// Relies on `ed25519_dalek::VerifyingKey::verify`: verification is a
/// deterministic function of public key, message and signature.
#[verifier::external_body]
fn dalek_verify(pk: &Vec<u8>, msg: &Vec<u8>, sig: &Vec<u8>) -> (ok: bool)
    requires
        pk@.len() == 32,
        ed_pk_decodes(pk@),
        sig@.len() == 64,
    ensures
        ok == ed_verifies(pk@, msg@, sig@),
{
    let key = ed25519_dalek::VerifyingKey::from_bytes(pk.as_slice().try_into().unwrap()).unwrap();
    let signature = ed25519_dalek::Signature::from_bytes(sig.as_slice().try_into().unwrap());
    key.verify(msg.as_slice(), &signature).is_ok()
}

/// Relies on `ed25519_dalek::SigningKey::generate` with the operating
/// system's secure random source: the generated secret key is 32 bytes.
/// Nothing else is assumed of the random value.
#[verifier::external_body]
fn dalek_generate() -> (sk: Vec<u8>)
    ensures
        sk@.len() == 32,
{
    let mut csprng = rand::rngs::OsRng {};
    ed25519_dalek::SigningKey::generate(&mut csprng).to_bytes().to_vec()
}

/// A failure of one of the signing-domain operations, together with the
/// exact status code the bridge reports for it.
#[derive(PartialEq, Eq, Structural, Clone, Copy, Debug)]
pub enum SigningError {
    /// The secret key bytes are not exactly 32 bytes long.
    MalformedSecretKey,
    /// The public key bytes are not 32 bytes or do not decode to a point.
    MalformedPublicKey,
    /// The signature bytes are not exactly 64 bytes long.
    MalformedSignature,
    /// The signature is well-formed but does not verify.
    VerificationFailed,
}

impl SigningError {
    /// The numeric status code of this failure on the wire.
    pub open spec fn spec_code(self) -> i32 {
        match self {
            SigningError::MalformedSecretKey => MALFORMED_SECRET_KEY,
            SigningError::MalformedPublicKey => MALFORMED_PUBLIC_KEY,
            SigningError::MalformedSignature => NATIVE_CONVERSION_ERROR,
            SigningError::VerificationFailed => SIGNATURE_VERIFICATION_FAILURE,
        }
    }

    /// Report this failure as its numeric status code.
    pub fn code(&self) -> (c: i32)
        ensures
            c == self.spec_code(),
    {
        match self {
            SigningError::MalformedSecretKey => MALFORMED_SECRET_KEY,
            SigningError::MalformedPublicKey => MALFORMED_PUBLIC_KEY,
            SigningError::MalformedSignature => NATIVE_CONVERSION_ERROR,
            SigningError::VerificationFailed => SIGNATURE_VERIFICATION_FAILURE,
        }
    }
}

/// Sign `msg` with the 32-byte secret key `sk`.
///
/// Succeeds exactly when the secret key has the right length; the
/// signature is then the deterministic Ed25519 signature, 64 bytes long,
/// and verifies under the public key derived from `sk`.
pub fn sign_message(sk: &Vec<u8>, msg: &Vec<u8>) -> (r: Result<Vec<u8>, SigningError>)
    ensures
        r is Ok <==> sk@.len() == 32,
        r matches Ok(sig) ==> {
            &&& sig@ == ed_signature(sk@, msg@)
            &&& sig@.len() == 64
            &&& ed_verifies(ed_public_key(sk@), msg@, sig@)
        },
        r matches Err(e) ==> e == SigningError::MalformedSecretKey,
{
    if sk.len() != 32 {
        return Err(SigningError::MalformedSecretKey);
    }
    Ok(dalek_sign(sk, msg))
}

/// Derive the 32-byte public key belonging to the secret key `sk`.
///
/// Succeeds exactly when the secret key has the right length.
pub fn derive_public_key(sk: &Vec<u8>) -> (r: Result<Vec<u8>, SigningError>)
    ensures
        r is Ok <==> sk@.len() == 32,
        r matches Ok(pk) ==> {
            &&& pk@ == ed_public_key(sk@)
            &&& pk@.len() == 32
            &&& ed_pk_decodes(pk@)
        },
        r matches Err(e) ==> e == SigningError::MalformedSecretKey,
{
    if sk.len() != 32 {
        return Err(SigningError::MalformedSecretKey);
    }
    Ok(dalek_derive_public(sk))
}

/// Verify `sig` on `msg` under the public key `pk`.
///
/// Returns `Ok` exactly when the public key decodes, the signature is 64
/// bytes long, and verification succeeds.  Failures are told apart in the
/// same order the bridge checks them: a malformed public key first, then a
/// malformed signature, then a failed verification.
pub fn verify_signature(pk: &Vec<u8>, msg: &Vec<u8>, sig: &Vec<u8>) -> (r: Result<
    (),
    SigningError,
>)
    ensures
        r is Ok <==> (pk@.len() == 32 && ed_pk_decodes(pk@) && sig@.len() == 64 && ed_verifies(
            pk@,
            msg@,
            sig@,
        )),
        !(pk@.len() == 32 && ed_pk_decodes(pk@)) ==> r == Err::<(), SigningError>(
            SigningError::MalformedPublicKey,
        ),
        (pk@.len() == 32 && ed_pk_decodes(pk@) && sig@.len() != 64) ==> r == Err::<
            (),
            SigningError,
        >(SigningError::MalformedSignature),
        (pk@.len() == 32 && ed_pk_decodes(pk@) && sig@.len() == 64 && !ed_verifies(
            pk@,
            msg@,
            sig@,
        )) ==> r == Err::<(), SigningError>(SigningError::VerificationFailed),
{
    if pk.len() != 32 {
        return Err(SigningError::MalformedPublicKey);
    }
    if !dalek_pk_decodes(pk) {
        return Err(SigningError::MalformedPublicKey);
    }
    if sig.len() != 64 {
        return Err(SigningError::MalformedSignature);
    }
    if dalek_verify(pk, msg, sig) {
        Ok(())
    } else {
        Err(SigningError::VerificationFailed)
    }
}

/// Generate a fresh 32-byte secret key from the system's secure random
/// source.
pub fn generate_secret_key() -> (sk: Vec<u8>)
    ensures
        sk@.len() == 32,
{
    dalek_generate()
}

} // verus!
