//! Trusted bindings to the JSON codec.
//!
//! Requests reach the bridge as JSON text.  Parsing and per-field typed
//! extraction are supplied by `serde_json`; the library treats a parsed
//! document as an opaque collection of named fields, with names for the
//! document a text parses to, the value stored under a key, and what each
//! typed extraction yields — all deterministic results of the codec.
//! Every extracted component is handed back in its canonical serialized
//! byte form.

use vstd::prelude::*;
use concordium_base::common::to_bytes;
use concordium_base::common::types::Amount;
use concordium_base::elgamal::{PublicKey, SecretKey};
use concordium_base::encrypted_transfers::types::IndexedEncryptedAmount;
use concordium_base::id::constants::ArCurve;
use concordium_base::id::types::GlobalContext;
use crate::group::{cipher_ok, elg_pk_ok, elg_sk_ok, global_ok};

verus! {

#[verifier::external_type_specification]
#[verifier::external_body]
pub struct ExValue(serde_json::Value);

/// Whether the text parses as a JSON document.
pub uninterp spec fn json_ok(s: Seq<char>) -> bool;

/// The document a text parses to, when it parses at all.
pub uninterp spec fn json_doc(s: Seq<char>) -> serde_json::Value;

/// The field names a parsed JSON document holds: the keys of its object
/// form, or no names at all if it is not an object.
pub uninterp spec fn obj_keys(v: serde_json::Value) -> Set<Seq<char>>;

/// The value a document holds under a key it contains.
pub uninterp spec fn obj_field(v: serde_json::Value, key: Seq<char>) -> serde_json::Value;

/// What extracting global cryptographic parameters from a JSON value
/// yields: their canonical serialization, or nothing if the value does
/// not have that shape.
pub uninterp spec fn global_field_of(v: serde_json::Value) -> Option<Seq<u8>>;

/// What extracting an ElGamal public key from a JSON value yields.
pub uninterp spec fn pk_field_of(v: serde_json::Value) -> Option<Seq<u8>>;

/// What extracting an ElGamal secret key from a JSON value yields.
pub uninterp spec fn sk_field_of(v: serde_json::Value) -> Option<Seq<u8>>;

/// What extracting a currency amount from a JSON value yields.
pub uninterp spec fn amount_field_of(v: serde_json::Value) -> Option<u64>;

/// What extracting an indexed encrypted amount from a JSON value yields:
/// the serialized low and high ciphertext chunks and the sequence index.
pub uninterp spec fn indexed_field_of(v: serde_json::Value) -> Option<(Seq<u8>, Seq<u8>, u64)>;

/// Relies on `serde_json::from_str::<Value>`: parsing succeeds exactly
/// when the text is a valid JSON document, and the document is a function
/// of the text.
#[verifier::external_body]
pub(crate) fn json_parse(s: &str) -> (r: Option<serde_json::Value>)
    ensures
        r is Some <==> json_ok(s@),
        r matches Some(v) ==> v == json_doc(s@),
{
    serde_json::from_str(s).ok()
}

/// Relies on `serde_json::Value::get`: a field is found exactly when the
/// document is an object holding that key, and the found value is a
/// function of document and key.
#[verifier::external_body]
pub(crate) fn json_get(v: &serde_json::Value, key: &str) -> (r: Option<serde_json::Value>)
    ensures
        r is Some <==> obj_keys(*v).contains(key@),
        r matches Some(f) ==> f == obj_field(*v, key@),
{
    v.get(key).cloned()
}

/// Relies on `serde_json::from_value` for global cryptographic
/// parameters: extraction succeeds or fails deterministically, and a
/// successfully extracted value re-serializes to a valid encoding.
#[verifier::external_body]
pub(crate) fn global_from_json(v: &serde_json::Value) -> (r: Option<Vec<u8>>)
    ensures
        r is Some <==> global_field_of(*v) is Some,
        r matches Some(b) ==> global_field_of(*v) == Some(b@) && global_ok(b@),
{
    match serde_json::from_value::<GlobalContext<ArCurve>>(v.clone()) {
        Ok(g) => Some(to_bytes(&g)),
        Err(_) => None,
    }
}

/// Relies on `serde_json::from_value` for an ElGamal public key.
#[verifier::external_body]
pub(crate) fn elg_pk_from_json(v: &serde_json::Value) -> (r: Option<Vec<u8>>)
    ensures
        r is Some <==> pk_field_of(*v) is Some,
        r matches Some(b) ==> pk_field_of(*v) == Some(b@) && elg_pk_ok(b@),
{
    match serde_json::from_value::<PublicKey<ArCurve>>(v.clone()) {
        Ok(k) => Some(to_bytes(&k)),
        Err(_) => None,
    }
}

/// Relies on `serde_json::from_value` for an ElGamal secret key.
#[verifier::external_body]
pub(crate) fn elg_sk_from_json(v: &serde_json::Value) -> (r: Option<Vec<u8>>)
    ensures
        r is Some <==> sk_field_of(*v) is Some,
        r matches Some(b) ==> sk_field_of(*v) == Some(b@) && elg_sk_ok(b@),
{
    match serde_json::from_value::<SecretKey<ArCurve>>(v.clone()) {
        Ok(k) => Some(to_bytes(&k)),
        Err(_) => None,
    }
}

/// Relies on `serde_json::from_value` for a currency amount; the wire
/// form is a decimal string of the smallest currency unit.
#[verifier::external_body]
pub(crate) fn amount_from_json(v: &serde_json::Value) -> (r: Option<u64>)
    ensures
        r == amount_field_of(*v),
{
    match serde_json::from_value::<Amount>(v.clone()) {
        Ok(a) => Some(a.micro_ccd()),
        Err(_) => None,
    }
}

/// Relies on `serde_json::from_value` for an indexed encrypted amount:
/// two ciphertext chunks and a sequence index.  Successfully extracted
/// chunks re-serialize to valid ciphertext encodings.
#[verifier::external_body]
pub(crate) fn indexed_from_json(v: &serde_json::Value) -> (r: Option<crate::amounts::IndexedAmount>)
    ensures
        r is Some <==> indexed_field_of(*v) is Some,
        r matches Some(ia) ==> {
            &&& indexed_field_of(*v) == Some((ia.encrypted.low@, ia.encrypted.high@, ia.index))
            &&& cipher_ok(ia.encrypted.low@)
            &&& cipher_ok(ia.encrypted.high@)
        },
{
    match serde_json::from_value::<IndexedEncryptedAmount<ArCurve>>(v.clone()) {
        Ok(ia) => Some(
            crate::amounts::IndexedAmount {
                encrypted: crate::amounts::EncryptedAmountBytes {
                    low: to_bytes(&ia.encrypted_chunks.encryptions[0]),
                    high: to_bytes(&ia.encrypted_chunks.encryptions[1]),
                },
                index: ia.index.index,
            },
        ),
        Err(_) => None,
    }
}

} // verus!
