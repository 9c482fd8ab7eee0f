//! Status codes and wire-level result encoding.
//!
//! The bridge reports failures in two conventions.  Operations on raw byte
//! buffers return a small integer status code, zero meaning success.
//! Operations that answer with a JSON string wrap either the payload or a
//! numeric error code in a tagged object, `{"Ok":...}` or `{"Err":n}`,
//! and never fail at the bridge level itself.

use vstd::prelude::*;

verus! {

/// Status code for a call that succeeded.
pub const SUCCESS: i32 = 0;
/// The caller-provided buffer or string could not be read or written.
pub const NATIVE_CONVERSION_ERROR: i32 = 1;
/// A secret key did not decode for the signing scheme.
pub const MALFORMED_SECRET_KEY: i32 = 2;
/// A public key did not decode for the signing scheme.
pub const MALFORMED_PUBLIC_KEY: i32 = 3;
/// A structurally valid signature did not verify.
pub const SIGNATURE_VERIFICATION_FAILURE: i32 = 4;
/// Writing a generated secret key into the caller's buffer failed.
pub const SECRET_KEY_GENERATION_FAILURE: i32 = 5;
/// Writing a derived public key into the caller's buffer failed.
pub const PUBLIC_KEY_GENERATION_FAILURE: i32 = 6;

/// Error code carried in a tagged JSON result when the request could not be
/// decoded or the response could not be serialized.
pub const JSON_SERDE_ERROR: u32 = 1;
/// Error code carried in a tagged JSON result when the input string was not
/// valid text.
pub const JSON_UTF8_ERROR: u32 = 2;
/// Error code carried in a tagged JSON result when the foreign-function
/// layer failed to move data across the boundary.
pub const JSON_INTEROP_ERROR: u32 = 3;
/// Error code carried in a tagged JSON result when an encrypted-amount
/// chunk could not be decrypted (its discrete logarithm was not found).
pub const JSON_DECRYPTION_ERROR: u32 = 4;
/// Error code carried in a tagged JSON result when no transfer payload
/// could be produced, for instance because the requested amount exceeds
/// the available aggregated amount or the supplied parameters cannot
/// carry the proof.
pub const JSON_PAYLOAD_ERROR: u32 = 5;
/// Error code carried in a tagged JSON result when a constructed payload
/// could not be serialized back to the wire format; serialization
/// failure is its own kind of error, apart from request decoding.
pub const JSON_ENCODE_ERROR: u32 = 6;

/// Decimal representation of a natural number, as ASCII digit bytes.
pub open spec fn dec_rep(n: nat) -> Seq<u8>
    decreases n,
{
    if n < 10 {
        seq![(48 + n) as u8]
    } else {
        dec_rep(n / 10).push((48 + n % 10) as u8)
    }
}

/// The exact bytes of the tagged JSON error result `{"Err":n}`.
pub open spec fn err_json(n: nat) -> Seq<u8> {
    seq![123u8, 34u8, 69u8, 114u8, 114u8, 34u8, 58u8] + dec_rep(n) + seq![125u8]
}

/// The exact bytes of the tagged JSON success result `{"Ok":p}` for a
/// serialized payload `p`.
pub open spec fn ok_json(p: Seq<u8>) -> Seq<u8> {
    seq![123u8, 34u8, 79u8, 107u8, 34u8, 58u8] + p + seq![125u8]
}

/// The tagged wire shapes never coincide: a success result differs from
/// every error result, and single-digit error codes differ from each
/// other.
pub proof fn lemma_tagged_results_distinct(p: Seq<u8>, n1: nat, n2: nat)
    requires
        n1 < 10,
        n2 < 10,
    ensures
        ok_json(p) != err_json(n1),
        n1 != n2 ==> err_json(n1) != err_json(n2),
{
    assert(ok_json(p)[2] == 79);
    assert(err_json(n1)[2] == 69);
    if n1 != n2 {
        assert(err_json(n1)[7] == (48 + n1) as u8);
        assert(err_json(n2)[7] == (48 + n2) as u8);
    }
}

/// Append the decimal digits of `n` to `out`.
pub fn push_decimal(out: &mut Vec<u8>, n: u32)
    ensures
        final(out)@ == old(out)@ + dec_rep(n as nat),
    decreases n,
{
    if n < 10 {
        out.push((48 + n) as u8);
        assert(out@ =~= old(out)@ + dec_rep(n as nat));
    } else {
        push_decimal(out, n / 10);
        out.push((48 + n % 10) as u8);
        assert(out@ =~= old(out)@ + dec_rep(n as nat));
    }
}

/// Encode the wire form `{"Err":code}` of a numeric error code.
pub fn encode_err(code: u32) -> (r: Vec<u8>)
    ensures
        r@ == err_json(code as nat),
{
    let mut out: Vec<u8> = Vec::new();
    out.push(123u8);
    out.push(34u8);
    out.push(69u8);
    out.push(114u8);
    out.push(114u8);
    out.push(34u8);
    out.push(58u8);
    push_decimal(&mut out, code);
    out.push(125u8);
    assert(out@ =~= err_json(code as nat));
    out
}

/// Wrap an already-serialized JSON payload in the wire form `{"Ok":p}`.
pub fn encode_ok(payload: &Vec<u8>) -> (r: Vec<u8>)
    ensures
        r@ == ok_json(payload@),
{
    let mut out: Vec<u8> = Vec::new();
    out.push(123u8);
    out.push(34u8);
    out.push(79u8);
    out.push(107u8);
    out.push(34u8);
    out.push(58u8);
    let mut i: usize = 0;
    while i < payload.len()
        invariant
            i <= payload.len(),
            out@ == seq![123u8, 34u8, 79u8, 107u8, 34u8, 58u8] + payload@.subrange(0, i as int),
        decreases payload.len() - i,
    {
        out.push(payload[i]);
        i = i + 1;
        assert(out@ =~= seq![123u8, 34u8, 79u8, 107u8, 34u8, 58u8] + payload@.subrange(
            0,
            i as int,
        ));
    }
    out.push(125u8);
    assert(payload@.subrange(0, payload@.len() as int) =~= payload@);
    assert(out@ =~= ok_json(payload@));
    out
}

} // verus!
