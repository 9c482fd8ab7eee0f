//! Discrete-log recovery and amount decryption against the real curve.

use concordium_base::common::to_bytes;
use concordium_base::curve_arithmetic::Curve;
use concordium_base::elgamal::{PublicKey, SecretKey};
use concordium_base::id::constants::ArCurve;
use concordium_base::id::types::GlobalContext;

use crypto_bridge::amounts::{decrypt_amount_checked, DecryptError, EncryptedAmountBytes,
    CHUNK_BASE};
use crypto_bridge::dlog::DlogTable;

fn test_context() -> GlobalContext<ArCurve> {
    GlobalContext::<ArCurve>::generate(String::from("genesis_string"))
}

fn small_table(ctx: &GlobalContext<ArCurve>, m: usize) -> DlogTable {
    DlogTable::build(&to_bytes(ctx.encryption_in_exponent_generator()), m)
}

#[test]
fn lookup_recovers_scalars_within_bound() {
    let ctx = test_context();
    let table = small_table(&ctx, 8);
    let gen = ctx.encryption_in_exponent_generator();
    for s in 0u64..64 {
        let target = to_bytes(&gen.mul_by_scalar(&ArCurve::scalar_from_u64(s)));
        assert_eq!(table.lookup(&target), Some(s), "scalar {} not recovered", s);
    }
}

#[test]
fn lookup_rejects_scalars_beyond_bound() {
    let ctx = test_context();
    let table = small_table(&ctx, 8);
    let gen = ctx.encryption_in_exponent_generator();
    for s in 64u64..72 {
        let target = to_bytes(&gen.mul_by_scalar(&ArCurve::scalar_from_u64(s)));
        assert_eq!(table.lookup(&target), None, "scalar {} wrongly in bound", s);
    }
}

#[test]
fn try_build_rejects_invalid_generator() {
    assert!(DlogTable::try_build(&vec![1u8, 2, 3], 4).is_none());
}

#[test]
fn seeded_and_explicit_construction_agree() {
    let ctx = test_context();
    let from_seed = DlogTable::from_seed("genesis_string", 8);
    let explicit = small_table(&ctx, 8);
    assert_eq!(from_seed.baby, explicit.baby);
    assert_eq!(from_seed.generator, explicit.generator);
    assert_eq!(from_seed.inv_step, explicit.inv_step);
}

#[allow(deprecated)]
fn encrypt(
    ctx: &GlobalContext<ArCurve>,
    pk: &PublicKey<ArCurve>,
    amount: u64,
) -> EncryptedAmountBytes {
    let mut rng = rand::thread_rng();
    let (enc, _) = concordium_base::encrypted_transfers::encrypt_amount(
        ctx,
        pk,
        concordium_base::common::types::Amount::from_micro_ccd(amount),
        &mut rng,
    );
    EncryptedAmountBytes {
        low: to_bytes(&enc.encryptions[0]),
        high: to_bytes(&enc.encryptions[1]),
    }
}

#[test]
fn decrypt_recovers_encrypted_amount() {
    let ctx = test_context();
    let mut rng = rand::thread_rng();
    let sk = SecretKey::generate(ctx.elgamal_generator(), &mut rng);
    let pk = PublicKey::from(&sk);
    let table = small_table(&ctx, 8);
    let enc = encrypt(&ctx, &pk, 42);
    let r = decrypt_amount_checked(&table, &to_bytes(&sk), &enc);
    assert_eq!(r, Ok(42));
}

#[test]
fn decrypt_recovers_two_digit_amount() {
    let ctx = test_context();
    let mut rng = rand::thread_rng();
    let sk = SecretKey::generate(ctx.elgamal_generator(), &mut rng);
    let pk = PublicKey::from(&sk);
    let table = small_table(&ctx, 8);
    let amount = 3 * CHUNK_BASE + 5;
    let enc = encrypt(&ctx, &pk, amount);
    let r = decrypt_amount_checked(&table, &to_bytes(&sk), &enc);
    assert_eq!(r, Ok(amount));
}

#[test]
fn decrypt_reports_out_of_bound_chunk() {
    let ctx = test_context();
    let mut rng = rand::thread_rng();
    let sk = SecretKey::generate(ctx.elgamal_generator(), &mut rng);
    let pk = PublicKey::from(&sk);
    let table = small_table(&ctx, 8);
    // The low chunk holds 100, beyond the 8 * 8 = 64 bound of this table.
    let enc = encrypt(&ctx, &pk, 100);
    let r = decrypt_amount_checked(&table, &to_bytes(&sk), &enc);
    assert_eq!(r, Err(DecryptError::DlogNotFound));
}

#[test]
fn decrypt_reports_malformed_input() {
    let ctx = test_context();
    let table = small_table(&ctx, 4);
    let enc = EncryptedAmountBytes { low: vec![0u8; 3], high: vec![0u8; 3] };
    let r = decrypt_amount_checked(&table, &vec![9u8; 4], &enc);
    assert_eq!(r, Err(DecryptError::MalformedInput));
}
