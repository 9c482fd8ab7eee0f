//! Construction of confidential-transfer payloads.
//!
//! Two kinds of transfer are built here: a shielded-to-public transfer and
//! a fully confidential transfer.  Both take a decoded request, decrypt
//! the sender's encrypted amount through the recovery table, aggregate it
//! with its sequence index, and hand the result to the external proof
//! construction; the payload, or the failure, is then encoded back in one
//! of the bridge's two reporting conventions.
//!
//! Two request-decoding strategies from different protocol generations are
//! kept side by side.  The tagged-JSON entry points decode strictly: any
//! missing or mistyped field collapses into the single decode error code.
//! The status-code entry point decodes tolerantly, field by field in a
//! fixed order, and reports a distinct code for the first field that
//! fails, so that equal malformed inputs always produce equal codes.  A
//! failed decryption is its own kind of error in both conventions, and so
//! is a payload that could not be serialized.
//!
//! The confidential-transfer proof construction consumes a fixed number
//! of bulletproof generator pairs and cannot take parameters with fewer.
//! Such parameters still decode, so they are rejected only after every
//! field has been examined, as a payload-stage outcome: the field-order
//! codes never depend on the generator count.

use vstd::prelude::*;
use vstd::string::StringSliceAdditionalSpecFns;
use concordium_base::common::from_bytes;
use concordium_base::common::types::Amount;
use concordium_base::encrypted_transfers::make_sec_to_pub_transfer_data;
use concordium_base::encrypted_transfers::make_transfer_data;
use concordium_base::encrypted_transfers::types::{AggregatedDecryptedAmount, EncryptedAmount,
    EncryptedAmountAggIndex};
use concordium_base::id::constants::ArCurve;
use concordium_base::id::types::GlobalContext;
use rand::thread_rng;
use serde_json::to_string;
use std::io::Cursor;
use crate::amounts::{aggregate, decrypt_amount_checked, decrypted_value, AggregatedAmount,
    IndexedAmount};
use crate::bytesutil::push_str_bytes;
use crate::codes::{encode_err, encode_ok, err_json, lemma_tagged_results_distinct, ok_json,
    JSON_DECRYPTION_ERROR, JSON_ENCODE_ERROR, JSON_PAYLOAD_ERROR, JSON_SERDE_ERROR};
use crate::dlog::{built_from, lemma_determined_tables_agree, DlogTable};
use crate::group::{cipher_ok, elg_decrypt, elg_pk_ok, elg_sk_ok, exp_generator,
    global_gen_count, global_gens, global_ok, global_params};
use crate::json::{amount_field_of, amount_from_json, elg_pk_from_json, elg_sk_from_json,
    global_field_of, global_from_json, indexed_field_of, indexed_from_json, json_doc, json_get,
    json_ok, json_parse, obj_field, obj_keys, pk_field_of, sk_field_of};

verus! {

use BuildOutcome::{EncodeFailed, NoPayload, Payload};

/// The table bound used by the deployed protocol: each ciphertext chunk
/// carries a 32-bit digit, recovered with a table of 2^16 baby steps.
pub const STANDARD_TABLE_SIZE: usize = 65536;

/// The seed string the deployed protocol derives its global parameters
/// from.
pub const STANDARD_SEED: &'static str = "genesis_string";

/// How many bulletproof generator pairs the confidential-transfer proof
/// construction consumes; parameters with fewer are rejected at the
/// payload stage, after all fields have been decoded.
pub const TRANSFER_GENERATORS: usize = 64;

/// Status code of the byte-buffer convention for a failed decryption: a
/// chunk's discrete logarithm was out of the table's reach.  Decryption
/// failure is its own error kind, so it sits above the decode codes and
/// apart from the payload and serialization codes.
pub const TRANSFER_DECRYPT_FAILURE: i32 = 11;

/// What came out of one call to the external payload construction.
pub enum BuildOutcome {
    /// A payload was produced and serialized to JSON text.
    Payload(Vec<u8>),
    /// No payload could be produced, for instance because the requested
    /// amount exceeds the aggregated amount.
    NoPayload,
    /// A payload was produced but could not be serialized.
    EncodeFailed,
}

/// Relies on `encrypted_transfers::make_sec_to_pub_transfer_data`: it
/// returns `None` whenever the requested amount exceeds the aggregated
/// amount (its first check), and may also return `None` if no proof could
/// be produced; its range proof tolerates short generator vectors by
/// failing.  The payload depends on fresh randomness, so nothing is
/// assumed about it beyond the reported outcome.
#[verifier::external_body]
#[allow(deprecated)]
pub(crate) fn raw_sec_to_pub(
    global: &Vec<u8>,
    sk: &Vec<u8>,
    low: &Vec<u8>,
    high: &Vec<u8>,
    index: u64,
    agg_amount: u64,
    to_send: u64,
) -> (r: BuildOutcome)
    requires
        global_ok(global@),
        elg_sk_ok(sk@),
        cipher_ok(low@),
        cipher_ok(high@),
    ensures
        to_send > agg_amount ==> r is NoPayload,
{
    let g: GlobalContext<ArCurve> = from_bytes(&mut Cursor::new(global)).unwrap();
    let key = from_bytes(&mut Cursor::new(sk)).unwrap();
    let enc = EncryptedAmount { encryptions: [from_bytes(&mut Cursor::new(low)).unwrap(), from_bytes(&mut Cursor::new(high)).unwrap()] };
    let agg = AggregatedDecryptedAmount { agg_encrypted_amount: enc, agg_index: EncryptedAmountAggIndex { index }, agg_amount: Amount::from_micro_ccd(agg_amount) };
    match make_sec_to_pub_transfer_data(&g, &key, &agg, Amount::from_micro_ccd(to_send), &mut thread_rng()) {
        None => NoPayload,
        Some(p) => match to_string(&p) {
            Ok(s) => Payload(s.into_bytes()),
            Err(_) => EncodeFailed,
        },
    }
}

/// Relies on `encrypted_transfers::make_transfer_data`: it returns `None`
/// whenever the requested amount exceeds the aggregated amount (its first
/// check), and may also return `None` if no proof could be produced.  It
/// takes the first 64 bulletproof generator pairs of the context and
/// panics on fewer, so parameters with fewer are excluded here.  The
/// payload depends on fresh randomness, so nothing is assumed about it
/// beyond the reported outcome.
#[verifier::external_body]
#[allow(deprecated)]
pub(crate) fn raw_encrypted_transfer(
    global: &Vec<u8>,
    receiver_pk: &Vec<u8>,
    sk: &Vec<u8>,
    low: &Vec<u8>,
    high: &Vec<u8>,
    index: u64,
    agg_amount: u64,
    to_send: u64,
) -> (r: BuildOutcome)
    requires
        global_ok(global@),
        global_gens(global@) >= TRANSFER_GENERATORS,
        elg_pk_ok(receiver_pk@),
        elg_sk_ok(sk@),
        cipher_ok(low@),
        cipher_ok(high@),
    ensures
        to_send > agg_amount ==> r is NoPayload,
{
    let g: GlobalContext<ArCurve> = from_bytes(&mut Cursor::new(global)).unwrap();
    let pk = from_bytes(&mut Cursor::new(receiver_pk)).unwrap();
    let key = from_bytes(&mut Cursor::new(sk)).unwrap();
    let enc = EncryptedAmount { encryptions: [from_bytes(&mut Cursor::new(low)).unwrap(), from_bytes(&mut Cursor::new(high)).unwrap()] };
    let agg = AggregatedDecryptedAmount { agg_encrypted_amount: enc, agg_index: EncryptedAmountAggIndex { index }, agg_amount: Amount::from_micro_ccd(agg_amount) };
    match make_transfer_data(&g, &pk, &key, &agg, Amount::from_micro_ccd(to_send), &mut thread_rng()) {
        None => NoPayload,
        Some(p) => match to_string(&p) {
            Ok(s) => Payload(s.into_bytes()),
            Err(_) => EncodeFailed,
        },
    }
}

/// Build a shielded-to-public transfer payload from decoded components.
///
/// The construction itself — proof generation and ciphertext arithmetic —
/// is delegated to the external primitives; this function fixes what the
/// outcome means.  In particular, asking to send more than the aggregated
/// record holds never yields a payload: the outcome is then the
/// infeasible-transfer report, an expected result and not a failure of
/// the bridge.
pub fn build_sec_to_pub_payload(
    global: &Vec<u8>,
    sk: &Vec<u8>,
    agg: &AggregatedAmount,
    to_send: u64,
) -> (r: BuildOutcome)
    requires
        global_ok(global@),
        elg_sk_ok(sk@),
        agg.encrypted.wf(),
    ensures
        to_send > agg.amount ==> r is NoPayload,
{
    raw_sec_to_pub(
        global,
        sk,
        &agg.encrypted.low,
        &agg.encrypted.high,
        agg.index,
        agg.amount,
        to_send,
    )
}

/// Build a fully confidential transfer payload from decoded components,
/// with the same reading of the outcome as
/// [`build_sec_to_pub_payload`].  The parameters must carry the full
/// complement of generator pairs the proof construction takes.
pub fn build_encrypted_transfer_payload(
    global: &Vec<u8>,
    receiver_pk: &Vec<u8>,
    sk: &Vec<u8>,
    agg: &AggregatedAmount,
    to_send: u64,
) -> (r: BuildOutcome)
    requires
        global_ok(global@),
        global_gens(global@) >= TRANSFER_GENERATORS,
        elg_pk_ok(receiver_pk@),
        elg_sk_ok(sk@),
        agg.encrypted.wf(),
    ensures
        to_send > agg.amount ==> r is NoPayload,
{
    raw_encrypted_transfer(
        global,
        receiver_pk,
        sk,
        &agg.encrypted.low,
        &agg.encrypted.high,
        agg.index,
        agg.amount,
        to_send,
    )
}

/// The serialized global parameters a document provides: present and
/// extractable, or nothing.
pub open spec fn global_part(v: serde_json::Value) -> Option<Seq<u8>> {
    if obj_keys(v).contains("global"@) {
        global_field_of(obj_field(v, "global"@))
    } else {
        None
    }
}

/// The serialized receiver public key a document provides.
pub open spec fn receiver_part(v: serde_json::Value) -> Option<Seq<u8>> {
    if obj_keys(v).contains("receiverPublicKey"@) {
        pk_field_of(obj_field(v, "receiverPublicKey"@))
    } else {
        None
    }
}

/// The serialized sender secret key a document provides.
pub open spec fn sender_part(v: serde_json::Value) -> Option<Seq<u8>> {
    if obj_keys(v).contains("senderSecretKey"@) {
        sk_field_of(obj_field(v, "senderSecretKey"@))
    } else {
        None
    }
}

/// The indexed encrypted amount a document provides under `key`: the two
/// serialized ciphertext chunks and the sequence index.
pub open spec fn input_part(v: serde_json::Value, key: Seq<char>) -> Option<(Seq<u8>, Seq<u8>, u64)> {
    if obj_keys(v).contains(key) {
        indexed_field_of(obj_field(v, key))
    } else {
        None
    }
}

/// The amount a document provides under `key`.
pub open spec fn amount_part(v: serde_json::Value, key: Seq<char>) -> Option<u64> {
    if obj_keys(v).contains(key) {
        amount_field_of(obj_field(v, key))
    } else {
        None
    }
}

/// Whether the document's global parameters are too scarce for the
/// confidential-transfer proof construction.
pub open spec fn scarce_generators(v: serde_json::Value) -> bool {
    global_part(v) is Some && global_gens(global_part(v).unwrap()) < TRANSFER_GENERATORS
}

/// What decrypting the document's input amount under its sender key
/// yields with table `t`: the plaintext, or nothing if a field is
/// unusable or a chunk's discrete logarithm is out of the table's reach.
pub open spec fn request_decrypt(t: DlogTable, v: serde_json::Value, key: Seq<char>) -> Option<
    int,
> {
    match (sender_part(v), input_part(v, key)) {
        (Some(sk), Some(ia)) => decrypted_value(t, sk, ia.0, ia.1),
        _ => None,
    }
}

/// Two tables built from the same generator and bound decrypt every
/// document identically.
proof fn lemma_request_decrypt_agree(
    t1: DlogTable,
    t2: DlogTable,
    g: Seq<u8>,
    m: int,
    v: serde_json::Value,
    key: Seq<char>,
)
    requires
        built_from(t1, g, m),
        built_from(t2, g, m),
    ensures
        request_decrypt(t1, v, key) == request_decrypt(t2, v, key),
{
    if sender_part(v) is Some && input_part(v, key) is Some {
        let sk = sender_part(v).unwrap();
        let ia = input_part(v, key).unwrap();
        lemma_determined_tables_agree(t1, t2, g, m, elg_decrypt(sk, ia.0));
        lemma_determined_tables_agree(t1, t2, g, m, elg_decrypt(sk, ia.1));
    }
}

/// All four fields of a strict shielded-to-public request decode.
pub open spec fn sec_to_pub_fields_ok(v: serde_json::Value) -> bool {
    &&& global_part(v) is Some
    &&& amount_part(v, "amount"@) is Some
    &&& sender_part(v) is Some
    &&& input_part(v, "inputEncryptedAmount"@) is Some
}

/// All five fields of a strict confidential-transfer request decode.
pub open spec fn encrypted_fields_ok(v: serde_json::Value) -> bool {
    &&& global_part(v) is Some
    &&& receiver_part(v) is Some
    &&& sender_part(v) is Some
    &&& amount_part(v, "amountToSend"@) is Some
    &&& input_part(v, "inputEncryptedAmount"@) is Some
}

/// All five fields of a tolerant confidential-transfer document decode.
pub open spec fn encrypted_tolerant_fields_ok(v: serde_json::Value) -> bool {
    &&& global_part(v) is Some
    &&& receiver_part(v) is Some
    &&& sender_part(v) is Some
    &&& input_part(v, "inputAmount"@) is Some
    &&& amount_part(v, "amountToSend"@) is Some
}

/// Build a shielded-to-public transfer payload from a strictly decoded
/// document.
///
/// The document must be one JSON object with the fields `global`,
/// `amount`, `senderSecretKey` and `inputEncryptedAmount`, decoded
/// atomically: the decode error code appears exactly when a field is
/// missing or mistyped, as the strict strategy loses field identity.
/// When all fields decode, a failed decryption yields exactly the
/// decryption code; an amount beyond the aggregated record yields the
/// payload code; and a payload that could not be serialized has a code
/// of its own.
pub fn sec_to_pub_from_value(table: &DlogTable, v: &serde_json::Value) -> (r: Vec<u8>)
    requires
        table.wf(),
        table.spec_size() <= 0x10000,
    ensures
        r@ == err_json(JSON_SERDE_ERROR as nat) <==> !sec_to_pub_fields_ok(*v),
        r@ == err_json(JSON_DECRYPTION_ERROR as nat) <==> sec_to_pub_fields_ok(*v)
            && request_decrypt(*table, *v, "inputEncryptedAmount"@) is None,
        sec_to_pub_fields_ok(*v) && (exists|a: int|
            request_decrypt(*table, *v, "inputEncryptedAmount"@) == Some(a)
                && amount_part(*v, "amount"@).unwrap() > a) ==> r@ == err_json(
            JSON_PAYLOAD_ERROR as nat,
        ),
        sec_to_pub_fields_ok(*v) && request_decrypt(*table, *v, "inputEncryptedAmount"@) is Some
            ==> (r@ == err_json(JSON_PAYLOAD_ERROR as nat) || r@ == err_json(
            JSON_ENCODE_ERROR as nat,
        ) || (exists|p: Seq<u8>| r@ == ok_json(p))),
        r@ == err_json(JSON_SERDE_ERROR as nat) || r@ == err_json(JSON_DECRYPTION_ERROR as nat)
            || r@ == err_json(JSON_PAYLOAD_ERROR as nat) || r@ == err_json(
            JSON_ENCODE_ERROR as nat,
        ) || (exists|p: Seq<u8>| r@ == ok_json(p)),
{
    proof {
        lemma_tagged_results_distinct(Seq::empty(), JSON_SERDE_ERROR as nat, JSON_DECRYPTION_ERROR as nat);
        lemma_tagged_results_distinct(Seq::empty(), JSON_SERDE_ERROR as nat, JSON_PAYLOAD_ERROR as nat);
        lemma_tagged_results_distinct(Seq::empty(), JSON_SERDE_ERROR as nat, JSON_ENCODE_ERROR as nat);
        lemma_tagged_results_distinct(Seq::empty(), JSON_DECRYPTION_ERROR as nat, JSON_PAYLOAD_ERROR as nat);
        lemma_tagged_results_distinct(Seq::empty(), JSON_DECRYPTION_ERROR as nat, JSON_ENCODE_ERROR as nat);
    }
    let global = match json_get(v, "global") {
        Some(f) => match global_from_json(&f) {
            Some(b) => b,
            None => { return encode_err(JSON_SERDE_ERROR) },
        },
        None => { return encode_err(JSON_SERDE_ERROR) },
    };
    let to_send = match json_get(v, "amount") {
        Some(f) => match amount_from_json(&f) {
            Some(a) => a,
            None => { return encode_err(JSON_SERDE_ERROR) },
        },
        None => { return encode_err(JSON_SERDE_ERROR) },
    };
    let sk = match json_get(v, "senderSecretKey") {
        Some(f) => match elg_sk_from_json(&f) {
            Some(b) => b,
            None => { return encode_err(JSON_SERDE_ERROR) },
        },
        None => { return encode_err(JSON_SERDE_ERROR) },
    };
    let indexed = match json_get(v, "inputEncryptedAmount") {
        Some(f) => match indexed_from_json(&f) {
            Some(ia) => ia,
            None => { return encode_err(JSON_SERDE_ERROR) },
        },
        None => { return encode_err(JSON_SERDE_ERROR) },
    };
    let amount = match decrypt_amount_checked(table, &sk, &indexed.encrypted) {
        Ok(a) => a,
        Err(_) => { return encode_err(JSON_DECRYPTION_ERROR) },
    };
    let agg: AggregatedAmount = aggregate(indexed, amount);
    match build_sec_to_pub_payload(&global, &sk, &agg, to_send) {
        BuildOutcome::Payload(p) => {
            proof {
                lemma_tagged_results_distinct(p@, JSON_SERDE_ERROR as nat, JSON_DECRYPTION_ERROR as nat);
                lemma_tagged_results_distinct(p@, JSON_DECRYPTION_ERROR as nat, JSON_SERDE_ERROR as nat);
            }
            encode_ok(&p)
        },
        BuildOutcome::NoPayload => encode_err(JSON_PAYLOAD_ERROR),
        BuildOutcome::EncodeFailed => encode_err(JSON_ENCODE_ERROR),
    }
}

/// Build a shielded-to-public transfer payload from JSON text: parse the
/// document, then decode it strictly as in [`sec_to_pub_from_value`].
pub fn create_sec_to_pub_transfer(table: &DlogTable, input: &str) -> (r: Vec<u8>)
    requires
        table.wf(),
        table.spec_size() <= 0x10000,
    ensures
        r@ == err_json(JSON_SERDE_ERROR as nat) <==> !(json_ok(input@) && sec_to_pub_fields_ok(
            json_doc(input@),
        )),
        r@ == err_json(JSON_DECRYPTION_ERROR as nat) <==> json_ok(input@)
            && sec_to_pub_fields_ok(json_doc(input@)) && request_decrypt(
            *table,
            json_doc(input@),
            "inputEncryptedAmount"@,
        ) is None,
        json_ok(input@) && sec_to_pub_fields_ok(json_doc(input@)) && (exists|a: int|
            request_decrypt(*table, json_doc(input@), "inputEncryptedAmount"@) == Some(a)
                && amount_part(json_doc(input@), "amount"@).unwrap() > a) ==> r@ == err_json(
            JSON_PAYLOAD_ERROR as nat,
        ),
        json_ok(input@) && sec_to_pub_fields_ok(json_doc(input@)) && request_decrypt(
            *table,
            json_doc(input@),
            "inputEncryptedAmount"@,
        ) is Some ==> (r@ == err_json(JSON_PAYLOAD_ERROR as nat) || r@ == err_json(
            JSON_ENCODE_ERROR as nat,
        ) || (exists|p: Seq<u8>| r@ == ok_json(p))),
        r@ == err_json(JSON_SERDE_ERROR as nat) || r@ == err_json(JSON_DECRYPTION_ERROR as nat)
            || r@ == err_json(JSON_PAYLOAD_ERROR as nat) || r@ == err_json(
            JSON_ENCODE_ERROR as nat,
        ) || (exists|p: Seq<u8>| r@ == ok_json(p)),
{
    match json_parse(input) {
        Some(v) => sec_to_pub_from_value(table, &v),
        None => {
            proof {
                lemma_tagged_results_distinct(
                    Seq::empty(),
                    JSON_SERDE_ERROR as nat,
                    JSON_DECRYPTION_ERROR as nat,
                );
            }
            encode_err(JSON_SERDE_ERROR)
        },
    }
}

/// Build a fully confidential transfer payload from a strictly decoded
/// document.
///
/// The document must be one JSON object with the fields `global`,
/// `receiverPublicKey`, `senderSecretKey`, `amountToSend` and
/// `inputEncryptedAmount`, decoded atomically exactly as in
/// [`sec_to_pub_from_value`].  Parameters that decode but are too scarce
/// for the proof construction are turned away only after every field has
/// been examined, as a payload failure, so they never change a decode
/// code and never reach the construction.
pub fn encrypted_from_value(table: &DlogTable, v: &serde_json::Value) -> (r: Vec<u8>)
    requires
        table.wf(),
        table.spec_size() <= 0x10000,
    ensures
        r@ == err_json(JSON_SERDE_ERROR as nat) <==> !encrypted_fields_ok(*v),
        r@ == err_json(JSON_DECRYPTION_ERROR as nat) <==> encrypted_fields_ok(*v)
            && request_decrypt(*table, *v, "inputEncryptedAmount"@) is None,
        encrypted_fields_ok(*v) && request_decrypt(*table, *v, "inputEncryptedAmount"@) is Some
            && scarce_generators(*v) ==> r@ == err_json(JSON_PAYLOAD_ERROR as nat),
        encrypted_fields_ok(*v) && (exists|a: int|
            request_decrypt(*table, *v, "inputEncryptedAmount"@) == Some(a) && amount_part(
                *v,
                "amountToSend"@,
            ).unwrap() > a) ==> r@ == err_json(JSON_PAYLOAD_ERROR as nat),
        encrypted_fields_ok(*v) && request_decrypt(*table, *v, "inputEncryptedAmount"@) is Some
            ==> (r@ == err_json(JSON_PAYLOAD_ERROR as nat) || r@ == err_json(
            JSON_ENCODE_ERROR as nat,
        ) || (exists|p: Seq<u8>| r@ == ok_json(p))),
        r@ == err_json(JSON_SERDE_ERROR as nat) || r@ == err_json(JSON_DECRYPTION_ERROR as nat)
            || r@ == err_json(JSON_PAYLOAD_ERROR as nat) || r@ == err_json(
            JSON_ENCODE_ERROR as nat,
        ) || (exists|p: Seq<u8>| r@ == ok_json(p)),
{
    proof {
        lemma_tagged_results_distinct(Seq::empty(), JSON_SERDE_ERROR as nat, JSON_DECRYPTION_ERROR as nat);
        lemma_tagged_results_distinct(Seq::empty(), JSON_SERDE_ERROR as nat, JSON_PAYLOAD_ERROR as nat);
        lemma_tagged_results_distinct(Seq::empty(), JSON_SERDE_ERROR as nat, JSON_ENCODE_ERROR as nat);
        lemma_tagged_results_distinct(Seq::empty(), JSON_DECRYPTION_ERROR as nat, JSON_PAYLOAD_ERROR as nat);
        lemma_tagged_results_distinct(Seq::empty(), JSON_DECRYPTION_ERROR as nat, JSON_ENCODE_ERROR as nat);
    }
    let global = match json_get(v, "global") {
        Some(f) => match global_from_json(&f) {
            Some(b) => b,
            None => { return encode_err(JSON_SERDE_ERROR) },
        },
        None => { return encode_err(JSON_SERDE_ERROR) },
    };
    let receiver_pk = match json_get(v, "receiverPublicKey") {
        Some(f) => match elg_pk_from_json(&f) {
            Some(b) => b,
            None => { return encode_err(JSON_SERDE_ERROR) },
        },
        None => { return encode_err(JSON_SERDE_ERROR) },
    };
    let sk = match json_get(v, "senderSecretKey") {
        Some(f) => match elg_sk_from_json(&f) {
            Some(b) => b,
            None => { return encode_err(JSON_SERDE_ERROR) },
        },
        None => { return encode_err(JSON_SERDE_ERROR) },
    };
    let to_send = match json_get(v, "amountToSend") {
        Some(f) => match amount_from_json(&f) {
            Some(a) => a,
            None => { return encode_err(JSON_SERDE_ERROR) },
        },
        None => { return encode_err(JSON_SERDE_ERROR) },
    };
    let indexed = match json_get(v, "inputEncryptedAmount") {
        Some(f) => match indexed_from_json(&f) {
            Some(ia) => ia,
            None => { return encode_err(JSON_SERDE_ERROR) },
        },
        None => { return encode_err(JSON_SERDE_ERROR) },
    };
    let amount = match decrypt_amount_checked(table, &sk, &indexed.encrypted) {
        Ok(a) => a,
        Err(_) => { return encode_err(JSON_DECRYPTION_ERROR) },
    };
    if global_gen_count(&global) < TRANSFER_GENERATORS {
        return encode_err(JSON_PAYLOAD_ERROR);
    }
    let agg: AggregatedAmount = aggregate(indexed, amount);
    match build_encrypted_transfer_payload(&global, &receiver_pk, &sk, &agg, to_send) {
        BuildOutcome::Payload(p) => {
            proof {
                lemma_tagged_results_distinct(p@, JSON_SERDE_ERROR as nat, JSON_DECRYPTION_ERROR as nat);
                lemma_tagged_results_distinct(p@, JSON_DECRYPTION_ERROR as nat, JSON_SERDE_ERROR as nat);
            }
            encode_ok(&p)
        },
        BuildOutcome::NoPayload => encode_err(JSON_PAYLOAD_ERROR),
        BuildOutcome::EncodeFailed => encode_err(JSON_ENCODE_ERROR),
    }
}

/// Build a fully confidential transfer payload from JSON text, in the
/// tagged-JSON convention: parse the document, then decode it strictly
/// as in [`encrypted_from_value`].
pub fn create_encrypted_transfer(table: &DlogTable, input: &str) -> (r: Vec<u8>)
    requires
        table.wf(),
        table.spec_size() <= 0x10000,
    ensures
        r@ == err_json(JSON_SERDE_ERROR as nat) <==> !(json_ok(input@) && encrypted_fields_ok(
            json_doc(input@),
        )),
        r@ == err_json(JSON_DECRYPTION_ERROR as nat) <==> json_ok(input@) && encrypted_fields_ok(
            json_doc(input@),
        ) && request_decrypt(*table, json_doc(input@), "inputEncryptedAmount"@) is None,
        json_ok(input@) && encrypted_fields_ok(json_doc(input@)) && request_decrypt(
            *table,
            json_doc(input@),
            "inputEncryptedAmount"@,
        ) is Some && scarce_generators(json_doc(input@)) ==> r@ == err_json(
            JSON_PAYLOAD_ERROR as nat,
        ),
        json_ok(input@) && encrypted_fields_ok(json_doc(input@)) && (exists|a: int|
            request_decrypt(*table, json_doc(input@), "inputEncryptedAmount"@) == Some(a)
                && amount_part(json_doc(input@), "amountToSend"@).unwrap() > a) ==> r@
            == err_json(JSON_PAYLOAD_ERROR as nat),
        json_ok(input@) && encrypted_fields_ok(json_doc(input@)) && request_decrypt(
            *table,
            json_doc(input@),
            "inputEncryptedAmount"@,
        ) is Some ==> (r@ == err_json(JSON_PAYLOAD_ERROR as nat) || r@ == err_json(
            JSON_ENCODE_ERROR as nat,
        ) || (exists|p: Seq<u8>| r@ == ok_json(p))),
        r@ == err_json(JSON_SERDE_ERROR as nat) || r@ == err_json(JSON_DECRYPTION_ERROR as nat)
            || r@ == err_json(JSON_PAYLOAD_ERROR as nat) || r@ == err_json(
            JSON_ENCODE_ERROR as nat,
        ) || (exists|p: Seq<u8>| r@ == ok_json(p)),
{
    match json_parse(input) {
        Some(v) => encrypted_from_value(table, &v),
        None => {
            proof {
                lemma_tagged_results_distinct(
                    Seq::empty(),
                    JSON_SERDE_ERROR as nat,
                    JSON_DECRYPTION_ERROR as nat,
                );
            }
            encode_err(JSON_SERDE_ERROR)
        },
    }
}

/// The diagnostic written back when a required field is absent.
fn missing_field_message(name: &str) -> (r: Vec<u8>)
    ensures
        r@ == "Field ".spec_bytes() + name.spec_bytes()
            + " not present, but should be.".spec_bytes(),
{
    let mut out: Vec<u8> = Vec::new();
    push_str_bytes(&mut out, "Field ");
    push_str_bytes(&mut out, name);
    push_str_bytes(&mut out, " not present, but should be.");
    out
}

/// The diagnostic written back when a required field does not have the
/// expected type.
fn bad_field_message(name: &str) -> (r: Vec<u8>)
    ensures
        r@ == "Field ".spec_bytes() + name.spec_bytes() + " could not be decoded.".spec_bytes(),
{
    let mut out: Vec<u8> = Vec::new();
    push_str_bytes(&mut out, "Field ");
    push_str_bytes(&mut out, name);
    push_str_bytes(&mut out, " could not be decoded.");
    out
}

/// The diagnostic written back when the input amount could not be
/// decrypted.
fn decrypt_failure_message() -> (r: Vec<u8>)
    ensures
        r@ == "The input amount could not be decrypted.".spec_bytes(),
{
    let mut out: Vec<u8> = Vec::new();
    push_str_bytes(&mut out, "The input amount could not be decrypted.");
    assert(out@ =~= "The input amount could not be decrypted.".spec_bytes());
    out
}

/// Build a fully confidential transfer payload from a tolerantly decoded
/// document, reporting a field-identified status code.
///
/// The required fields are checked in a fixed order — `global`,
/// `receiverPublicKey`, `senderSecretKey`, `inputAmount`, `amountToSend` —
/// and the first one that is missing or mistyped decides the code, so
/// the code for equal malformed documents is always the same.
/// Decryption of the input amount happens between the last two fields
/// and has a code of its own.  Parameters too scarce for the proof
/// construction are rejected after all fields, as the payload-stage
/// code, and never change a field code.  The clauses below pin each
/// code to its exact cause, and each cause to its code.
pub fn encrypted_transfer_from_value(table: &DlogTable, v: &serde_json::Value) -> (r: (
    i32,
    Vec<u8>,
))
    requires
        table.wf(),
        table.spec_size() <= 0x10000,
    ensures
        r.0 == 4 <==> global_part(*v) is None,
        r.0 == 5 <==> global_part(*v) is Some && receiver_part(*v) is None,
        r.0 == 6 <==> global_part(*v) is Some && receiver_part(*v) is Some && sender_part(
            *v,
        ) is None,
        r.0 == 7 <==> global_part(*v) is Some && receiver_part(*v) is Some && sender_part(
            *v,
        ) is Some && input_part(*v, "inputAmount"@) is None,
        r.0 == TRANSFER_DECRYPT_FAILURE <==> global_part(*v) is Some && receiver_part(
            *v,
        ) is Some && sender_part(*v) is Some && input_part(*v, "inputAmount"@) is Some
            && request_decrypt(*table, *v, "inputAmount"@) is None,
        r.0 == 8 <==> global_part(*v) is Some && receiver_part(*v) is Some && sender_part(
            *v,
        ) is Some && input_part(*v, "inputAmount"@) is Some && request_decrypt(
            *table,
            *v,
            "inputAmount"@,
        ) is Some && amount_part(*v, "amountToSend"@) is None,
        encrypted_tolerant_fields_ok(*v) && request_decrypt(*table, *v, "inputAmount"@) is Some
            && scarce_generators(*v) ==> r.0 == 9,
        (encrypted_tolerant_fields_ok(*v) && (exists|a: int|
            request_decrypt(*table, *v, "inputAmount"@) == Some(a) && amount_part(
                *v,
                "amountToSend"@,
            ).unwrap() > a)) ==> r.0 == 9,
        r.0 == 0 || r.0 == 9 || r.0 == 10 ==> encrypted_tolerant_fields_ok(*v)
            && request_decrypt(*table, *v, "inputAmount"@) is Some,
        r.0 == 7 ==> r.1@ == (if obj_keys(*v).contains("inputAmount"@) {
            "Field ".spec_bytes() + "inputAmount".spec_bytes()
                + " could not be decoded.".spec_bytes()
        } else {
            "Field ".spec_bytes() + "inputAmount".spec_bytes()
                + " not present, but should be.".spec_bytes()
        }),
        r.0 == TRANSFER_DECRYPT_FAILURE ==> r.1@
            == "The input amount could not be decrypted.".spec_bytes(),
        r.0 == 4 || r.0 == 5 || r.0 == 6 || r.0 == 8 || r.0 == 9 || r.0 == 10 ==> r.1@.len()
            == 0,
        r.0 == 0 || r.0 == 4 || r.0 == 5 || r.0 == 6 || r.0 == 7 || r.0 == 8 || r.0 == 9 || r.0
            == 10 || r.0 == TRANSFER_DECRYPT_FAILURE,
{
    let global = match json_get(v, "global") {
        Some(f) => match global_from_json(&f) {
            Some(b) => b,
            None => { return (4, Vec::new()) },
        },
        None => { return (4, Vec::new()) },
    };
    let receiver_pk = match json_get(v, "receiverPublicKey") {
        Some(f) => match elg_pk_from_json(&f) {
            Some(b) => b,
            None => { return (5, Vec::new()) },
        },
        None => { return (5, Vec::new()) },
    };
    let sk = match json_get(v, "senderSecretKey") {
        Some(f) => match elg_sk_from_json(&f) {
            Some(b) => b,
            None => { return (6, Vec::new()) },
        },
        None => { return (6, Vec::new()) },
    };
    let indexed: IndexedAmount = match json_get(v, "inputAmount") {
        Some(f) => match indexed_from_json(&f) {
            Some(ia) => ia,
            None => { return (7, bad_field_message("inputAmount")) },
        },
        None => { return (7, missing_field_message("inputAmount")) },
    };
    let amount = match decrypt_amount_checked(table, &sk, &indexed.encrypted) {
        Ok(a) => a,
        Err(_) => { return (TRANSFER_DECRYPT_FAILURE, decrypt_failure_message()) },
    };
    let agg: AggregatedAmount = aggregate(indexed, amount);
    let to_send = match json_get(v, "amountToSend") {
        Some(f) => match amount_from_json(&f) {
            Some(a) => a,
            None => { return (8, Vec::new()) },
        },
        None => { return (8, Vec::new()) },
    };
    if global_gen_count(&global) < TRANSFER_GENERATORS {
        return (9, Vec::new());
    }
    match build_encrypted_transfer_payload(&global, &receiver_pk, &sk, &agg, to_send) {
        BuildOutcome::Payload(p) => (0, p),
        BuildOutcome::NoPayload => (9, Vec::new()),
        BuildOutcome::EncodeFailed => (10, Vec::new()),
    }
}

/// Build a fully confidential transfer payload from JSON text, in the
/// byte-buffer and status-code convention.
///
/// Returns the status code and the bytes to hand back: the serialized
/// payload on success, a diagnostic for the input-amount and decryption
/// stages, and nothing otherwise.  Unparsable text is reported before
/// any field is looked at.
pub fn generate_encrypted_transfer(table: &DlogTable, input: &str) -> (r: (i32, Vec<u8>))
    requires
        table.wf(),
        table.spec_size() <= 0x10000,
    ensures
        !json_ok(input@) ==> r.0 == 1 && r.1@.len() == 0,
        json_ok(input@) ==> {
            &&& (r.0 == 4 <==> global_part(json_doc(input@)) is None)
            &&& (r.0 == 5 <==> global_part(json_doc(input@)) is Some && receiver_part(
                json_doc(input@),
            ) is None)
            &&& (r.0 == 6 <==> global_part(json_doc(input@)) is Some && receiver_part(
                json_doc(input@),
            ) is Some && sender_part(json_doc(input@)) is None)
            &&& (r.0 == 7 <==> global_part(json_doc(input@)) is Some && receiver_part(
                json_doc(input@),
            ) is Some && sender_part(json_doc(input@)) is Some && input_part(
                json_doc(input@),
                "inputAmount"@,
            ) is None)
            &&& (r.0 == TRANSFER_DECRYPT_FAILURE <==> global_part(json_doc(input@)) is Some
                && receiver_part(json_doc(input@)) is Some && sender_part(
                json_doc(input@),
            ) is Some && input_part(json_doc(input@), "inputAmount"@) is Some && request_decrypt(
                *table,
                json_doc(input@),
                "inputAmount"@,
            ) is None)
            &&& (r.0 == 8 <==> global_part(json_doc(input@)) is Some && receiver_part(
                json_doc(input@),
            ) is Some && sender_part(json_doc(input@)) is Some && input_part(
                json_doc(input@),
                "inputAmount"@,
            ) is Some && request_decrypt(*table, json_doc(input@), "inputAmount"@) is Some
                && amount_part(json_doc(input@), "amountToSend"@) is None)
            &&& (encrypted_tolerant_fields_ok(json_doc(input@)) && request_decrypt(
                *table,
                json_doc(input@),
                "inputAmount"@,
            ) is Some && scarce_generators(json_doc(input@)) ==> r.0 == 9)
            &&& ((encrypted_tolerant_fields_ok(json_doc(input@)) && (exists|a: int|
                request_decrypt(*table, json_doc(input@), "inputAmount"@) == Some(a)
                    && amount_part(json_doc(input@), "amountToSend"@).unwrap() > a)) ==> r.0
                == 9)
            &&& (r.0 == 0 || r.0 == 9 || r.0 == 10 ==> encrypted_tolerant_fields_ok(
                json_doc(input@),
            ) && request_decrypt(*table, json_doc(input@), "inputAmount"@) is Some)
            &&& (r.0 == 7 ==> r.1@ == (if obj_keys(json_doc(input@)).contains("inputAmount"@) {
                "Field ".spec_bytes() + "inputAmount".spec_bytes()
                    + " could not be decoded.".spec_bytes()
            } else {
                "Field ".spec_bytes() + "inputAmount".spec_bytes()
                    + " not present, but should be.".spec_bytes()
            }))
            &&& (r.0 == TRANSFER_DECRYPT_FAILURE ==> r.1@
                == "The input amount could not be decrypted.".spec_bytes())
            &&& (r.0 == 4 || r.0 == 5 || r.0 == 6 || r.0 == 8 || r.0 == 9 || r.0 == 10
                ==> r.1@.len() == 0)
            &&& (r.0 == 0 || r.0 == 4 || r.0 == 5 || r.0 == 6 || r.0 == 7 || r.0 == 8 || r.0
                == 9 || r.0 == 10 || r.0 == TRANSFER_DECRYPT_FAILURE)
        },
{
    let v = match json_parse(input) {
        Some(v) => v,
        None => { return (1, Vec::new()) },
    };
    encrypted_transfer_from_value(table, &v)
}

/// Answer a shielded-to-public transfer request with a freshly built
/// standard recovery table, as a caller with no table at hand would.
/// The decryption clauses hold for every table built from the standard
/// generator and bound: by [`lemma_determined_tables_agree`] they all
/// recover the same scalars as the one built here.
pub fn process_sec_to_pub_request(input: &str) -> (r: Vec<u8>)
    ensures
        r@ == err_json(JSON_SERDE_ERROR as nat) <==> !(json_ok(input@) && sec_to_pub_fields_ok(
            json_doc(input@),
        )),
        forall|t: DlogTable|
            built_from(t, exp_generator(global_params("genesis_string"@)), 65536) ==> {
                &&& (r@ == err_json(JSON_DECRYPTION_ERROR as nat) <==> json_ok(input@)
                    && sec_to_pub_fields_ok(json_doc(input@)) && request_decrypt(
                    t,
                    json_doc(input@),
                    "inputEncryptedAmount"@,
                ) is None)
                &&& (json_ok(input@) && sec_to_pub_fields_ok(json_doc(input@)) && (exists|a: int|
                    request_decrypt(t, json_doc(input@), "inputEncryptedAmount"@) == Some(a)
                        && amount_part(json_doc(input@), "amount"@).unwrap() > a) ==> r@
                    == err_json(JSON_PAYLOAD_ERROR as nat))
                &&& (json_ok(input@) && sec_to_pub_fields_ok(json_doc(input@))
                    && request_decrypt(t, json_doc(input@), "inputEncryptedAmount"@) is Some
                    ==> (r@ == err_json(JSON_PAYLOAD_ERROR as nat) || r@ == err_json(
                    JSON_ENCODE_ERROR as nat,
                ) || (exists|p: Seq<u8>| r@ == ok_json(p))))
            },
        r@ == err_json(JSON_SERDE_ERROR as nat) || r@ == err_json(JSON_DECRYPTION_ERROR as nat)
            || r@ == err_json(JSON_PAYLOAD_ERROR as nat) || r@ == err_json(
            JSON_ENCODE_ERROR as nat,
        ) || (exists|p: Seq<u8>| r@ == ok_json(p)),
{
    let table = DlogTable::from_seed("genesis_string", STANDARD_TABLE_SIZE);
    let r = create_sec_to_pub_transfer(&table, input);
    proof {
        assert forall|t: DlogTable|
            built_from(
                t,
                exp_generator(global_params("genesis_string"@)),
                65536,
            ) implies request_decrypt(t, json_doc(input@), "inputEncryptedAmount"@)
            == request_decrypt(table, json_doc(input@), "inputEncryptedAmount"@) by {
            lemma_request_decrypt_agree(
                t,
                table,
                exp_generator(global_params("genesis_string"@)),
                65536,
                json_doc(input@),
                "inputEncryptedAmount"@,
            );
        }
    }
    r
}

/// Answer a confidential-transfer request in the tagged-JSON convention
/// with a freshly built standard recovery table; the decryption clauses
/// hold for every table built from the standard generator and bound.
pub fn process_encrypted_transfer_request(input: &str) -> (r: Vec<u8>)
    ensures
        r@ == err_json(JSON_SERDE_ERROR as nat) <==> !(json_ok(input@) && encrypted_fields_ok(
            json_doc(input@),
        )),
        forall|t: DlogTable|
            built_from(t, exp_generator(global_params("genesis_string"@)), 65536) ==> {
                &&& (r@ == err_json(JSON_DECRYPTION_ERROR as nat) <==> json_ok(input@)
                    && encrypted_fields_ok(json_doc(input@)) && request_decrypt(
                    t,
                    json_doc(input@),
                    "inputEncryptedAmount"@,
                ) is None)
                &&& (json_ok(input@) && encrypted_fields_ok(json_doc(input@)) && (exists|a: int|
                    request_decrypt(t, json_doc(input@), "inputEncryptedAmount"@) == Some(a)
                        && amount_part(json_doc(input@), "amountToSend"@).unwrap() > a) ==> r@
                    == err_json(JSON_PAYLOAD_ERROR as nat))
                &&& (json_ok(input@) && encrypted_fields_ok(json_doc(input@)) && request_decrypt(
                    t,
                    json_doc(input@),
                    "inputEncryptedAmount"@,
                ) is Some && scarce_generators(json_doc(input@)) ==> r@ == err_json(
                    JSON_PAYLOAD_ERROR as nat,
                ))
                &&& (json_ok(input@) && encrypted_fields_ok(json_doc(input@)) && request_decrypt(
                    t,
                    json_doc(input@),
                    "inputEncryptedAmount"@,
                ) is Some ==> (r@ == err_json(JSON_PAYLOAD_ERROR as nat) || r@ == err_json(
                    JSON_ENCODE_ERROR as nat,
                ) || (exists|p: Seq<u8>| r@ == ok_json(p))))
            },
        r@ == err_json(JSON_SERDE_ERROR as nat) || r@ == err_json(JSON_DECRYPTION_ERROR as nat)
            || r@ == err_json(JSON_PAYLOAD_ERROR as nat) || r@ == err_json(
            JSON_ENCODE_ERROR as nat,
        ) || (exists|p: Seq<u8>| r@ == ok_json(p)),
{
    let table = DlogTable::from_seed("genesis_string", STANDARD_TABLE_SIZE);
    let r = create_encrypted_transfer(&table, input);
    proof {
        assert forall|t: DlogTable|
            built_from(
                t,
                exp_generator(global_params("genesis_string"@)),
                65536,
            ) implies request_decrypt(t, json_doc(input@), "inputEncryptedAmount"@)
            == request_decrypt(table, json_doc(input@), "inputEncryptedAmount"@) by {
            lemma_request_decrypt_agree(
                t,
                table,
                exp_generator(global_params("genesis_string"@)),
                65536,
                json_doc(input@),
                "inputEncryptedAmount"@,
            );
        }
    }
    r
}

/// Answer a confidential-transfer request in the status-code convention
/// with a freshly built standard recovery table; the field codes are
/// pinned outright and the decryption clauses hold for every table built
/// from the standard generator and bound.
pub fn process_transfer_request_with_codes(input: &str) -> (r: (i32, Vec<u8>))
    ensures
        !json_ok(input@) ==> r.0 == 1 && r.1@.len() == 0,
        json_ok(input@) ==> {
            &&& (r.0 == 4 <==> global_part(json_doc(input@)) is None)
            &&& (r.0 == 5 <==> global_part(json_doc(input@)) is Some && receiver_part(
                json_doc(input@),
            ) is None)
            &&& (r.0 == 6 <==> global_part(json_doc(input@)) is Some && receiver_part(
                json_doc(input@),
            ) is Some && sender_part(json_doc(input@)) is None)
            &&& (r.0 == 7 <==> global_part(json_doc(input@)) is Some && receiver_part(
                json_doc(input@),
            ) is Some && sender_part(json_doc(input@)) is Some && input_part(
                json_doc(input@),
                "inputAmount"@,
            ) is None)
            &&& (r.0 == 7 ==> r.1@ == (if obj_keys(json_doc(input@)).contains("inputAmount"@) {
                "Field ".spec_bytes() + "inputAmount".spec_bytes()
                    + " could not be decoded.".spec_bytes()
            } else {
                "Field ".spec_bytes() + "inputAmount".spec_bytes()
                    + " not present, but should be.".spec_bytes()
            }))
            &&& (r.0 == TRANSFER_DECRYPT_FAILURE ==> r.1@
                == "The input amount could not be decrypted.".spec_bytes())
            &&& (r.0 == 4 || r.0 == 5 || r.0 == 6 || r.0 == 8 || r.0 == 9 || r.0 == 10
                ==> r.1@.len() == 0)
            &&& (r.0 == 0 || r.0 == 4 || r.0 == 5 || r.0 == 6 || r.0 == 7 || r.0 == 8 || r.0
                == 9 || r.0 == 10 || r.0 == TRANSFER_DECRYPT_FAILURE)
        },
        json_ok(input@) ==> forall|t: DlogTable|
            built_from(t, exp_generator(global_params("genesis_string"@)), 65536) ==> {
                &&& (r.0 == TRANSFER_DECRYPT_FAILURE <==> global_part(json_doc(input@)) is Some
                    && receiver_part(json_doc(input@)) is Some && sender_part(
                    json_doc(input@),
                ) is Some && input_part(json_doc(input@), "inputAmount"@) is Some
                    && request_decrypt(t, json_doc(input@), "inputAmount"@) is None)
                &&& (r.0 == 8 <==> global_part(json_doc(input@)) is Some && receiver_part(
                    json_doc(input@),
                ) is Some && sender_part(json_doc(input@)) is Some && input_part(
                    json_doc(input@),
                    "inputAmount"@,
                ) is Some && request_decrypt(t, json_doc(input@), "inputAmount"@) is Some
                    && amount_part(json_doc(input@), "amountToSend"@) is None)
                &&& (encrypted_tolerant_fields_ok(json_doc(input@)) && request_decrypt(
                    t,
                    json_doc(input@),
                    "inputAmount"@,
                ) is Some && scarce_generators(json_doc(input@)) ==> r.0 == 9)
                &&& ((encrypted_tolerant_fields_ok(json_doc(input@)) && (exists|a: int|
                    request_decrypt(t, json_doc(input@), "inputAmount"@) == Some(a)
                        && amount_part(json_doc(input@), "amountToSend"@).unwrap() > a)) ==> r.0
                    == 9)
                &&& (r.0 == 0 || r.0 == 9 || r.0 == 10 ==> encrypted_tolerant_fields_ok(
                    json_doc(input@),
                ) && request_decrypt(t, json_doc(input@), "inputAmount"@) is Some)
            },
{
    let table = DlogTable::from_seed("genesis_string", STANDARD_TABLE_SIZE);
    let r = generate_encrypted_transfer(&table, input);
    proof {
        assert forall|t: DlogTable|
            built_from(
                t,
                exp_generator(global_params("genesis_string"@)),
                65536,
            ) implies request_decrypt(t, json_doc(input@), "inputAmount"@) == request_decrypt(
            table,
            json_doc(input@),
            "inputAmount"@,
        ) by {
            lemma_request_decrypt_agree(
                t,
                table,
                exp_generator(global_params("genesis_string"@)),
                65536,
                json_doc(input@),
                "inputAmount"@,
            );
        }
    }
    r
}

} // verus!
