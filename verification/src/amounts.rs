//! Decryption and aggregation of confidential amounts.
//!
//! A confidential amount is encrypted as two ElGamal ciphertext chunks, a
//! low-order and a high-order 32-bit digit.  Decrypting the amount means
//! decrypting each chunk to a group element, recovering its discrete
//! logarithm through the recovery table, and recombining the two digits.
//! A decrypted amount is then bundled with its original ciphertext and its
//! sequence index into an aggregated record, the input expected by the
//! transfer-payload builders.

use vstd::prelude::*;
use crate::dlog::{dlog_of, DlogTable};
use crate::group::{cipher_decodes, cipher_ok, decrypt_chunk, elg_decrypt, elg_sk_decodes,
    elg_sk_ok};

verus! {

/// The number of plaintext values one ciphertext chunk can carry: each
/// chunk encodes one 32-bit digit of the amount.
pub const CHUNK_BASE: u64 = 0x1_0000_0000;

/// An encrypted amount: two serialized ElGamal ciphertext chunks.  The
/// chunk count is fixed by the encoding scheme, so the two chunks are two
/// fields rather than a list.
pub struct EncryptedAmountBytes {
    /// Ciphertext of the low-order 32-bit digit.
    pub low: Vec<u8>,
    /// Ciphertext of the high-order 32-bit digit.
    pub high: Vec<u8>,
}

impl EncryptedAmountBytes {
    /// Both chunks decode to ElGamal ciphertexts.
    pub open spec fn wf(self) -> bool {
        cipher_ok(self.low@) && cipher_ok(self.high@)
    }
}

/// An encrypted amount together with its position in the sender's
/// encrypted-amount history.
pub struct IndexedAmount {
    /// The encrypted amount itself.
    pub encrypted: EncryptedAmountBytes,
    /// The sequence index of the amount; opaque to this library beyond
    /// being passed through.
    pub index: u64,
}

/// A decrypted amount bundled with its ciphertext and sequence index, the
/// input to transfer-payload construction.  Its plaintext field must equal
/// the true decryption of the ciphertext under the sender's key; the
/// constructors below establish that by construction.
pub struct AggregatedAmount {
    /// The ciphertext the plaintext was recovered from.
    pub encrypted: EncryptedAmountBytes,
    /// The sequence index carried over from the indexed amount.
    pub index: u64,
    /// The recovered plaintext amount in the smallest currency unit.
    pub amount: u64,
}

/// Why an amount could not be decrypted.
#[derive(PartialEq, Eq, Structural, Clone, Copy, Debug)]
pub enum DecryptError {
    /// The secret key or a ciphertext chunk did not decode at all.
    MalformedInput,
    /// A chunk's discrete logarithm was not found within the table bound.
    DlogNotFound,
}

/// The discrete logarithm of one decrypted chunk, if it lies within the
/// table bound.
pub open spec fn chunk_value(t: DlogTable, sk: Seq<u8>, chunk: Seq<u8>) -> Option<int> {
    dlog_of(t, elg_decrypt(sk, chunk))
}

/// The plaintext amount of a two-chunk encrypted amount under `sk`: the
/// low digit plus the high digit scaled by the chunk base, or nothing if
/// either digit is out of the table's reach.
pub open spec fn decrypted_value(t: DlogTable, sk: Seq<u8>, low: Seq<u8>, high: Seq<u8>) -> Option<
    int,
> {
    match (chunk_value(t, sk, low), chunk_value(t, sk, high)) {
        (Some(lo), Some(hi)) => Some(lo + hi * CHUNK_BASE),
        _ => None,
    }
}

/// Decrypt a two-chunk encrypted amount with the secret key `sk`, using
/// the recovery table `t`.
///
/// Succeeds exactly when both chunks' discrete logarithms are within the
/// table bound, and then returns precisely the recombined amount.  The
/// table bound must not exceed the chunk base, so that each recovered
/// digit fits in 32 bits and the recombination cannot overflow.
pub fn decrypt_amount(t: &DlogTable, sk: &Vec<u8>, enc: &EncryptedAmountBytes) -> (r: Result<
    u64,
    DecryptError,
>)
    requires
        t.wf(),
        t.spec_size() <= 0x10000,
        elg_sk_ok(sk@),
        enc.wf(),
    ensures
        match r {
            Ok(a) => decrypted_value(*t, sk@, enc.low@, enc.high@) == Some(a as int),
            Err(e) => decrypted_value(*t, sk@, enc.low@, enc.high@) is None && e == DecryptError::DlogNotFound,
        },
{
    proof {
        assert(t.spec_size() * t.spec_size() <= 0x1_0000_0000) by (nonlinear_arith)
            requires
                0 <= t.spec_size() <= 0x10000,
        ;
    }
    let low_elem = decrypt_chunk(sk, &enc.low);
    let lo = match t.lookup(&low_elem) {
        Some(v) => v,
        None => { return Err(DecryptError::DlogNotFound) },
    };
    let high_elem = decrypt_chunk(sk, &enc.high);
    let hi = match t.lookup(&high_elem) {
        Some(v) => v,
        None => { return Err(DecryptError::DlogNotFound) },
    };
    assert(lo < 0x1_0000_0000 && hi < 0x1_0000_0000);
    Ok(lo + hi * CHUNK_BASE)
}

/// Decrypt after first checking that the key and both chunks decode,
/// reporting malformed input distinctly from a failed recovery.
pub fn decrypt_amount_checked(t: &DlogTable, sk: &Vec<u8>, enc: &EncryptedAmountBytes) -> (r:
    Result<u64, DecryptError>)
    requires
        t.wf(),
        t.spec_size() <= 0x10000,
    ensures
        !(elg_sk_ok(sk@) && enc.wf()) ==> r == Err::<u64, DecryptError>(
            DecryptError::MalformedInput,
        ),
        elg_sk_ok(sk@) && enc.wf() ==> match r {
            Ok(a) => decrypted_value(*t, sk@, enc.low@, enc.high@) == Some(a as int),
            Err(e) => decrypted_value(*t, sk@, enc.low@, enc.high@) is None && e == DecryptError::DlogNotFound,
        },
{
    if !elg_sk_decodes(sk) {
        return Err(DecryptError::MalformedInput);
    }
    if !cipher_decodes(&enc.low) {
        return Err(DecryptError::MalformedInput);
    }
    if !cipher_decodes(&enc.high) {
        return Err(DecryptError::MalformedInput);
    }
    decrypt_amount(t, sk, enc)
}

/// Bundle a decrypted amount with its source ciphertext and index.
///
/// A pure field mapping: the ciphertext and index are carried over
/// unchanged and the plaintext is stored alongside them.
pub fn aggregate(input: IndexedAmount, amount: u64) -> (r: AggregatedAmount)
    ensures
        r.encrypted.low@ == input.encrypted.low@,
        r.encrypted.high@ == input.encrypted.high@,
        r.index == input.index,
        r.amount == amount,
{
    AggregatedAmount { encrypted: input.encrypted, index: input.index, amount }
}

} // verus!
