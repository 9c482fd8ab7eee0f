//! End-to-end transfer requests: both decoding strategies, both reporting
//! conventions, the infeasible-transfer policy, and field-order
//! determinism for malformed documents.

use concordium_base::common::to_bytes;
use concordium_base::common::types::Amount;
use concordium_base::elgamal::{PublicKey, SecretKey};
use concordium_base::encrypted_transfers;
use concordium_base::encrypted_transfers::types::{EncryptedAmount, EncryptedAmountIndex,
    EncryptedAmountTransferData, IndexedEncryptedAmount, SecToPubAmountTransferData};
use concordium_base::id::constants::ArCurve;
use concordium_base::id::types::GlobalContext;
use serde_json::Value;

use crypto_bridge::codes::{encode_err, encode_ok};
use crypto_bridge::dlog::DlogTable;
use crypto_bridge::transfer::{create_encrypted_transfer, create_sec_to_pub_transfer,
    generate_encrypted_transfer};

struct Setup {
    ctx: GlobalContext<ArCurve>,
    sender_sk: SecretKey<ArCurve>,
    sender_pk: PublicKey<ArCurve>,
    receiver_pk: PublicKey<ArCurve>,
    encrypted: EncryptedAmount<ArCurve>,
    table: DlogTable,
}

#[allow(deprecated)]
fn setup(amount: u64) -> Setup {
    let ctx = GlobalContext::<ArCurve>::generate(String::from("genesis_string"));
    let mut rng = rand::thread_rng();
    let sender_sk = SecretKey::generate(ctx.elgamal_generator(), &mut rng);
    let sender_pk = PublicKey::from(&sender_sk);
    let receiver_sk = SecretKey::generate(ctx.elgamal_generator(), &mut rng);
    let receiver_pk = PublicKey::from(&receiver_sk);
    let (encrypted, _) = encrypted_transfers::encrypt_amount(
        &ctx,
        &sender_pk,
        Amount::from_micro_ccd(amount),
        &mut rng,
    );
    let table = DlogTable::build(&to_bytes(ctx.encryption_in_exponent_generator()), 8);
    Setup { ctx, sender_sk, sender_pk, receiver_pk, encrypted, table }
}

fn indexed(s: &Setup) -> IndexedEncryptedAmount<ArCurve> {
    IndexedEncryptedAmount {
        encrypted_chunks: s.encrypted.clone(),
        index: EncryptedAmountIndex { index: 0 },
    }
}

/// The full document for the tolerant, field-by-field decoder.
fn tolerant_request(s: &Setup, to_send: u64) -> serde_json::Map<String, Value> {
    let mut m = serde_json::Map::new();
    m.insert("global".to_string(), serde_json::to_value(&s.ctx).unwrap());
    m.insert("receiverPublicKey".to_string(), serde_json::to_value(&s.receiver_pk).unwrap());
    m.insert("senderSecretKey".to_string(), serde_json::to_value(&s.sender_sk).unwrap());
    m.insert("inputAmount".to_string(), serde_json::to_value(indexed(s)).unwrap());
    m.insert(
        "amountToSend".to_string(),
        serde_json::to_value(Amount::from_micro_ccd(to_send)).unwrap(),
    );
    m
}

/// The full document for the strict shielded-to-public decoder.
fn strict_sec_to_pub_request(s: &Setup, to_send: u64) -> serde_json::Map<String, Value> {
    let mut m = serde_json::Map::new();
    m.insert("global".to_string(), serde_json::to_value(&s.ctx).unwrap());
    m.insert("amount".to_string(), serde_json::to_value(Amount::from_micro_ccd(to_send)).unwrap());
    m.insert("senderSecretKey".to_string(), serde_json::to_value(&s.sender_sk).unwrap());
    m.insert("inputEncryptedAmount".to_string(), serde_json::to_value(indexed(s)).unwrap());
    m
}

/// The full document for the strict confidential-transfer decoder.
fn strict_encrypted_request(s: &Setup, to_send: u64) -> serde_json::Map<String, Value> {
    let mut m = serde_json::Map::new();
    m.insert("global".to_string(), serde_json::to_value(&s.ctx).unwrap());
    m.insert("receiverPublicKey".to_string(), serde_json::to_value(&s.receiver_pk).unwrap());
    m.insert("senderSecretKey".to_string(), serde_json::to_value(&s.sender_sk).unwrap());
    m.insert(
        "amountToSend".to_string(),
        serde_json::to_value(Amount::from_micro_ccd(to_send)).unwrap(),
    );
    m.insert("inputEncryptedAmount".to_string(), serde_json::to_value(indexed(s)).unwrap());
    m
}

fn text(m: &serde_json::Map<String, Value>) -> String {
    serde_json::to_string(&Value::Object(m.clone())).unwrap()
}

#[test]
fn encrypted_transfer_succeeds_and_verifies() {
    let s = setup(10);
    let (code, out) = generate_encrypted_transfer(&s.table, &text(&tolerant_request(&s, 6)));
    assert_eq!(code, 0);
    let data: EncryptedAmountTransferData<ArCurve> =
        serde_json::from_slice(&out).expect("payload should parse");
    assert!(encrypted_transfers::verify_transfer_data(
        &s.ctx,
        &s.receiver_pk,
        &s.sender_pk,
        &s.encrypted,
        &data,
    ));
}

#[test]
fn infeasible_transfer_reports_designated_code() {
    let s = setup(10);
    let (code, out) = generate_encrypted_transfer(&s.table, &text(&tolerant_request(&s, 50)));
    assert_eq!(code, 9);
    assert!(out.is_empty());
}

#[test]
fn unparsable_text_reports_code_one() {
    let s = setup(1);
    let (code, out) = generate_encrypted_transfer(&s.table, "this is not json");
    assert_eq!(code, 1);
    assert!(out.is_empty());
}

#[test]
fn first_missing_field_decides_the_code() {
    let s = setup(5);
    // Two required fields missing: the first in checking order wins.
    let mut m = tolerant_request(&s, 2);
    m.remove("global");
    m.remove("senderSecretKey");
    let (code, _) = generate_encrypted_transfer(&s.table, &text(&m));
    assert_eq!(code, 4);
    // Another pair: receiverPublicKey before amountToSend.
    let mut m = tolerant_request(&s, 2);
    m.remove("receiverPublicKey");
    m.remove("amountToSend");
    let (code, _) = generate_encrypted_transfer(&s.table, &text(&m));
    assert_eq!(code, 5);
}

#[test]
fn each_missing_field_has_its_own_code() {
    let s = setup(5);
    for (field, expected) in [
        ("global", 4),
        ("receiverPublicKey", 5),
        ("senderSecretKey", 6),
        ("inputAmount", 7),
        ("amountToSend", 8),
    ] {
        let mut m = tolerant_request(&s, 2);
        m.remove(field);
        let (code, _) = generate_encrypted_transfer(&s.table, &text(&m));
        assert_eq!(code, expected, "wrong code with {} missing", field);
    }
}

#[test]
fn missing_input_amount_names_the_field() {
    let s = setup(5);
    let mut m = tolerant_request(&s, 2);
    m.remove("inputAmount");
    let (code, out) = generate_encrypted_transfer(&s.table, &text(&m));
    assert_eq!(code, 7);
    assert_eq!(out, b"Field inputAmount not present, but should be.".to_vec());
}

#[test]
fn mistyped_input_amount_names_the_field() {
    let s = setup(5);
    let mut m = tolerant_request(&s, 2);
    m.insert("inputAmount".to_string(), Value::String("nonsense".to_string()));
    let (code, out) = generate_encrypted_transfer(&s.table, &text(&m));
    assert_eq!(code, 7);
    assert_eq!(out, b"Field inputAmount could not be decoded.".to_vec());
}

#[test]
fn sec_to_pub_succeeds_and_verifies() {
    let s = setup(10);
    let out = create_sec_to_pub_transfer(&s.table, &text(&strict_sec_to_pub_request(&s, 4)));
    let v: Value = serde_json::from_slice(&out).expect("result should be JSON");
    let payload = v.get("Ok").expect("success result expected");
    let data: SecToPubAmountTransferData<ArCurve> =
        serde_json::from_value(payload.clone()).expect("payload should parse");
    assert!(encrypted_transfers::verify_sec_to_pub_transfer_data(
        &s.ctx,
        &s.sender_pk,
        &s.encrypted,
        &data,
    ));
}

#[test]
fn sec_to_pub_infeasible_amount_is_tagged_error() {
    let s = setup(10);
    let out = create_sec_to_pub_transfer(&s.table, &text(&strict_sec_to_pub_request(&s, 50)));
    assert_eq!(out, b"{\"Err\":5}".to_vec());
}

#[test]
fn sec_to_pub_strict_decode_collapses_field_identity() {
    let s = setup(5);
    for field in ["global", "amount", "senderSecretKey", "inputEncryptedAmount"] {
        let mut m = strict_sec_to_pub_request(&s, 2);
        m.remove(field);
        let out = create_sec_to_pub_transfer(&s.table, &text(&m));
        assert_eq!(out, b"{\"Err\":1}".to_vec(), "with {} missing", field);
    }
    let out = create_sec_to_pub_transfer(&s.table, "} not json {");
    assert_eq!(out, b"{\"Err\":1}".to_vec());
}

#[test]
fn encrypted_transfer_tagged_convention() {
    let s = setup(10);
    let out = create_encrypted_transfer(&s.table, &text(&strict_encrypted_request(&s, 3)));
    let v: Value = serde_json::from_slice(&out).expect("result should be JSON");
    let payload = v.get("Ok").expect("success result expected");
    let data: EncryptedAmountTransferData<ArCurve> =
        serde_json::from_value(payload.clone()).expect("payload should parse");
    assert!(encrypted_transfers::verify_transfer_data(
        &s.ctx,
        &s.receiver_pk,
        &s.sender_pk,
        &s.encrypted,
        &data,
    ));
    let out = create_encrypted_transfer(&s.table, &text(&strict_encrypted_request(&s, 50)));
    assert_eq!(out, b"{\"Err\":5}".to_vec());
    let mut m = strict_encrypted_request(&s, 3);
    m.remove("receiverPublicKey");
    let out = create_encrypted_transfer(&s.table, &text(&m));
    assert_eq!(out, b"{\"Err\":1}".to_vec());
}

#[test]
fn out_of_bound_amount_fails_decryption_with_codes() {
    // 100 exceeds the 8 * 8 = 64 bound of the test table, so the low
    // chunk's discrete logarithm is not found; decryption failure has a
    // status code of its own, apart from every decode code.
    let s = setup(100);
    let (code, out) = generate_encrypted_transfer(&s.table, &text(&tolerant_request(&s, 1)));
    assert_eq!(code, 11);
    assert_eq!(out, b"The input amount could not be decrypted.".to_vec());
}

#[test]
fn short_generator_parameters_fail_at_the_payload_stage() {
    // Parameters with fewer bulletproof generator pairs than the proof
    // construction takes still decode; they are turned away only after
    // every field has been examined, as a payload failure, and are never
    // handed to the construction.
    let s = setup(10);
    let short_ctx = GlobalContext::<ArCurve>::generate_from_seed(
        String::from("genesis_string"),
        2,
        b"generator seed",
    );
    let mut m = tolerant_request(&s, 1);
    m.insert("global".to_string(), serde_json::to_value(&short_ctx).unwrap());
    let (code, out) = generate_encrypted_transfer(&s.table, &text(&m));
    assert_eq!(code, 9);
    assert!(out.is_empty());
    let mut m = strict_encrypted_request(&s, 1);
    m.insert("global".to_string(), serde_json::to_value(&short_ctx).unwrap());
    let out = create_encrypted_transfer(&s.table, &text(&m));
    assert_eq!(out, b"{\"Err\":5}".to_vec());
}

#[test]
fn short_generator_parameters_do_not_change_field_order() {
    // A decodable but scarce global must not mask a later field error:
    // with the receiver key absent the receiver code is reported, as the
    // fixed checking order demands.
    let s = setup(10);
    let short_ctx = GlobalContext::<ArCurve>::generate_from_seed(
        String::from("genesis_string"),
        2,
        b"generator seed",
    );
    let mut m = tolerant_request(&s, 1);
    m.insert("global".to_string(), serde_json::to_value(&short_ctx).unwrap());
    m.remove("receiverPublicKey");
    let (code, out) = generate_encrypted_transfer(&s.table, &text(&m));
    assert_eq!(code, 5);
    assert!(out.is_empty());
    // And a missing input amount still carries its own code and message.
    let mut m = tolerant_request(&s, 1);
    m.insert("global".to_string(), serde_json::to_value(&short_ctx).unwrap());
    m.remove("inputAmount");
    let (code, out) = generate_encrypted_transfer(&s.table, &text(&m));
    assert_eq!(code, 7);
    assert_eq!(out, b"Field inputAmount not present, but should be.".to_vec());
}

#[test]
fn out_of_bound_amount_fails_decryption_tagged() {
    let s = setup(100);
    let out = create_sec_to_pub_transfer(&s.table, &text(&strict_sec_to_pub_request(&s, 1)));
    assert_eq!(out, b"{\"Err\":4}".to_vec());
    let out = create_encrypted_transfer(&s.table, &text(&strict_encrypted_request(&s, 1)));
    assert_eq!(out, b"{\"Err\":4}".to_vec());
}

#[test]
fn result_encoders_produce_exact_wire_bytes() {
    assert_eq!(encode_err(12), b"{\"Err\":12}".to_vec());
    assert_eq!(encode_err(0), b"{\"Err\":0}".to_vec());
    assert_eq!(encode_err(305), b"{\"Err\":305}".to_vec());
    assert_eq!(encode_ok(&b"[1,2]".to_vec()), b"{\"Ok\":[1,2]}".to_vec());
    assert_eq!(encode_ok(&Vec::new()), b"{\"Ok\":}".to_vec());
}
