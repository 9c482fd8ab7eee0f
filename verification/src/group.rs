//! Trusted bindings to the curve and ElGamal primitives.
//!
//! The curve group, the ElGamal secret keys and ciphertexts, and the global
//! cryptographic parameters are supplied by the `concordium_base` crate.
//! Inside this library every such value is carried in its canonical
//! serialized form, as a plain byte vector, so that contracts can speak
//! about it; each wrapper below decodes its arguments, makes exactly one
//! call into the outside crate, and re-encodes the result.

use vstd::prelude::*;
use concordium_base::common::{from_bytes, to_bytes};
use concordium_base::curve_arithmetic::Curve;
use concordium_base::elgamal::{Cipher, SecretKey};
use concordium_base::id::constants::ArCurve;
use concordium_base::id::types::GlobalContext;
use std::io::Cursor;

verus! {

/// Whether the bytes decode to a group element of the ambient curve.
pub uninterp spec fn group_elem_ok(b: Seq<u8>) -> bool;

/// The serialized sum (group operation) of two serialized group elements.
pub uninterp spec fn group_add(a: Seq<u8>, b: Seq<u8>) -> Seq<u8>;

/// The serialized unit of the group, stated relative to a reference
/// element of the same group so that contracts can speak of it.
pub uninterp spec fn group_unit(reference: Seq<u8>) -> Seq<u8>;

/// The serialized group inverse of a serialized group element.
pub uninterp spec fn group_neg(a: Seq<u8>) -> Seq<u8>;

/// Whether the bytes decode to an ElGamal secret key.
pub uninterp spec fn elg_sk_ok(b: Seq<u8>) -> bool;

/// Whether the bytes decode to an ElGamal ciphertext (one chunk).
pub uninterp spec fn cipher_ok(b: Seq<u8>) -> bool;

/// Whether the bytes decode to a set of global cryptographic parameters.
pub uninterp spec fn global_ok(b: Seq<u8>) -> bool;

/// Whether the bytes decode to an ElGamal public key.
pub uninterp spec fn elg_pk_ok(b: Seq<u8>) -> bool;

/// The serialized group element an ElGamal ciphertext decrypts to under a
/// secret key.
pub uninterp spec fn elg_decrypt(sk: Seq<u8>, cipher: Seq<u8>) -> Seq<u8>;

/// The serialized global cryptographic parameters generated from a seed
/// string.
pub uninterp spec fn global_params(seed: Seq<char>) -> Seq<u8>;

/// How many bulletproof generator pairs serialized global parameters
/// hold.  The proof construction for confidential transfers takes the
/// first 64 of them and panics on fewer, so callers must check this
/// count on parameters that arrive from outside.
pub uninterp spec fn global_gens(global: Seq<u8>) -> nat;

/// The serialized generator used for encryption in the exponent, as found
/// in serialized global parameters.
pub uninterp spec fn exp_generator(global: Seq<u8>) -> Seq<u8>;

/// Relies on `Curve::zero_point` for the curve of the anonymity-revocation
/// domain: the unit of the group, serialized.  The reference element only
/// fixes which group is meant; the call does not read it.
#[verifier::external_body]
pub(crate) fn curve_zero(reference: &Vec<u8>) -> (r: Vec<u8>)
    requires
        group_elem_ok(reference@),
    ensures
        r@ == group_unit(reference@),
        group_elem_ok(r@),
{
    let _ = reference;
    to_bytes(&ArCurve::zero_point())
}

/// Relies on `Curve::plus_point`: the group operation; decoding two valid
/// elements, adding them and re-encoding is a function of the two byte
/// strings alone.
#[verifier::external_body]
pub(crate) fn curve_add(a: &Vec<u8>, b: &Vec<u8>) -> (r: Vec<u8>)
    requires
        group_elem_ok(a@),
        group_elem_ok(b@),
    ensures
        r@ == group_add(a@, b@),
        group_elem_ok(r@),
{
    let pa: ArCurve = from_bytes(&mut Cursor::new(a)).unwrap();
    let pb: ArCurve = from_bytes(&mut Cursor::new(b)).unwrap();
    to_bytes(&pa.plus_point(&pb))
}

/// Relies on `Curve::inverse_point`: the group inverse, serialized.
#[verifier::external_body]
pub(crate) fn curve_neg(a: &Vec<u8>) -> (r: Vec<u8>)
    requires
        group_elem_ok(a@),
    ensures
        r@ == group_neg(a@),
        group_elem_ok(r@),
{
    let pa: ArCurve = from_bytes(&mut Cursor::new(a)).unwrap();
    to_bytes(&pa.inverse_point())
}

/// Relies on deserialization of a curve group element: it succeeds exactly
/// when the bytes are a valid encoding.
#[verifier::external_body]
pub(crate) fn curve_elem_decodes(b: &Vec<u8>) -> (ok: bool)
    ensures
        ok == group_elem_ok(b@),
{
    from_bytes::<ArCurve, _>(&mut Cursor::new(b)).is_ok()
}

/// Relies on deserialization of an ElGamal secret key.
#[verifier::external_body]
pub(crate) fn elg_sk_decodes(b: &Vec<u8>) -> (ok: bool)
    ensures
        ok == elg_sk_ok(b@),
{
    from_bytes::<SecretKey<ArCurve>, _>(&mut Cursor::new(b)).is_ok()
}

/// Relies on deserialization of an ElGamal ciphertext.
#[verifier::external_body]
pub(crate) fn cipher_decodes(b: &Vec<u8>) -> (ok: bool)
    ensures
        ok == cipher_ok(b@),
{
    from_bytes::<Cipher<ArCurve>, _>(&mut Cursor::new(b)).is_ok()
}

/// Relies on `SecretKey::decrypt`: ElGamal decryption of one ciphertext
/// chunk to a group element, a function of key and ciphertext alone.
#[verifier::external_body]
pub(crate) fn decrypt_chunk(sk: &Vec<u8>, cipher: &Vec<u8>) -> (r: Vec<u8>)
    requires
        elg_sk_ok(sk@),
        cipher_ok(cipher@),
    ensures
        r@ == elg_decrypt(sk@, cipher@),
        group_elem_ok(r@),
{
    let key: SecretKey<ArCurve> = from_bytes(&mut Cursor::new(sk)).unwrap();
    let c: Cipher<ArCurve> = from_bytes(&mut Cursor::new(cipher)).unwrap();
    to_bytes(&key.decrypt(&c).value)
}

/// Relies on `GlobalContext::generate`: the parameters are a function of
/// the seed string alone (the generators come from a fixed hash chain),
/// and they carry the full complement of 256 bulletproof generator
/// pairs.
#[verifier::external_body]
pub(crate) fn generate_global_params(seed: &str) -> (r: Vec<u8>)
    ensures
        r@ == global_params(seed@),
        global_ok(r@),
        global_gens(r@) == 256,
{
    to_bytes(&GlobalContext::<ArCurve>::generate(String::from(seed)))
}

/// Relies on the `bulletproof_generators` field of the global
/// parameters: the number of generator pairs they hold.
#[verifier::external_body]
pub(crate) fn global_gen_count(global: &Vec<u8>) -> (n: usize)
    requires
        global_ok(global@),
    ensures
        n as nat == global_gens(global@),
{
    let ctx: GlobalContext<ArCurve> = from_bytes(&mut Cursor::new(global)).unwrap();
    ctx.bulletproof_generators.G_H.len()
}

/// Relies on `GlobalContext::encryption_in_exponent_generator`: the
/// generator for encryption in the exponent is a field of the parameters.
#[verifier::external_body]
pub(crate) fn exp_generator_bytes(global: &Vec<u8>) -> (r: Vec<u8>)
    requires
        global_ok(global@),
    ensures
        r@ == exp_generator(global@),
        group_elem_ok(r@),
{
    let ctx: GlobalContext<ArCurve> = from_bytes(&mut Cursor::new(global)).unwrap();
    to_bytes(ctx.encryption_in_exponent_generator())
}

} // verus!
