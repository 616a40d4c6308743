//! Signature format converter.
//!
//! Bridges between the detached-signature encodings a general-purpose signer
//! produces and the fixed-width, word-endian-swapped encodings the hardware
//! verifier expects.
//!
//! - An ECC P-384 signature arrives ASN.1-DER-encoded. It is decoded to its
//!   canonical raw form (two 48-byte big-endian integers, r then s), and then
//!   every 4-byte word of the 96 bytes has its byte order swapped in place
//!   (a per-word reversal, not a reversal of word order).
//! - A raw LMS signature passes through unchanged when it covers a manifest.
//!   When it covers the security version specifically, the 4-byte leaf-index
//!   field at its front is byte-reversed instead, matching the different
//!   endianness expectation of that verification path.

use vstd::prelude::*;
use vstd::arithmetic::div_mod::{lemma_fundamental_div_mod, lemma_fundamental_div_mod_converse};

use crate::codec::{ECC384_SIG_SIZE, LMS_SIG_SIZE};
use crate::error::ManifestError;

verus! {

/// The per-word byte swap: each aligned 4-byte group of `s` reversed in
/// place, with the groups themselves kept in order.
pub open spec fn word_swap_spec(s: Seq<u8>) -> Seq<u8>
    recommends
        s.len() % 4 == 0,
{
    Seq::new(s.len(), |i: int| s[4 * (i / 4) + (3 - i % 4)])
}

/// The swapped position of index `i` stays inside the same 4-byte word, and
/// therefore inside the buffer; swapping it again gives back `i`.
proof fn lemma_swap_index(i: int, len: int)
    requires
        0 <= i < len,
        len % 4 == 0,
    ensures
        0 <= 4 * (i / 4) + (3 - i % 4) < len,
        (4 * (i / 4) + (3 - i % 4)) / 4 == i / 4,
        (4 * (i / 4) + (3 - i % 4)) % 4 == 3 - i % 4,
{
    lemma_fundamental_div_mod(i, 4);
    let j = 4 * (i / 4) + (3 - i % 4);
    lemma_fundamental_div_mod_converse(j, 4, i / 4, 3 - i % 4);
    lemma_fundamental_div_mod(len, 4);
    assert(i / 4 < len / 4 || (i / 4 == len / 4 && i % 4 < len % 4)) by {
        if i / 4 > len / 4 || (i / 4 == len / 4 && i % 4 >= len % 4) {
            assert(i >= len) by (nonlinear_arith)
                requires
                    i == 4 * (i / 4) + i % 4,
                    len == 4 * (len / 4) + len % 4,
                    0 <= i % 4 < 4,
                    0 <= len % 4 < 4,
                    i / 4 > len / 4 || (i / 4 == len / 4 && i % 4 >= len % 4),
            ;
        }
    }
    assert(j < len) by (nonlinear_arith)
        requires
            j == 4 * (i / 4) + (3 - i % 4),
            0 <= i % 4 < 4,
            i / 4 < len / 4,
            len == 4 * (len / 4),
    ;
}

/// Word-swap involution: applying the per-word byte swap twice returns the
/// original bytes, for any buffer whose length is a multiple of 4.
pub proof fn lemma_word_swap_involution(s: Seq<u8>)
    requires
        s.len() % 4 == 0,
    ensures
        word_swap_spec(word_swap_spec(s)) == s,
{
    let t = word_swap_spec(s);
    let u = word_swap_spec(t);
    assert forall|i: int| 0 <= i < s.len() implies u[i] == s[i] by {
        lemma_swap_index(i, s.len() as int);
        let j = 4 * (i / 4) + (3 - i % 4);
        lemma_swap_index(j, s.len() as int);
        assert(4 * (j / 4) + (3 - j % 4) == i);
    }
    assert(u =~= s);
}

/// Reinterprets `sig` as aligned 4-byte words and swaps each word's byte
/// order in place.
pub fn word_swap(sig: &Vec<u8>) -> (r: Vec<u8>)
    requires
        sig@.len() % 4 == 0,
    ensures
        r@ == word_swap_spec(sig@),
{
    let mut out: Vec<u8> = Vec::new();
    let mut i: usize = 0;
    while i < sig.len()
        invariant
            sig@.len() % 4 == 0,
            0 <= i <= sig@.len(),
            out@.len() == i,
            forall|k: int| 0 <= k < i ==> out@[k] == word_swap_spec(sig@)[k],
        decreases sig@.len() - i,
    {
        proof {
            lemma_swap_index(i as int, sig@.len() as int);
        }
        let j = 4 * (i / 4) + (3 - i % 4);
        out.push(sig[j]);
        i = i + 1;
    }
    proof {
        assert(out@ =~= word_swap_spec(sig@));
    }
    out
}

/// The leaf-index adjustment for an LMS signature that covers the security
/// version: the first 4 bytes reversed, the rest untouched.
pub open spec fn lms_svn_adjust_spec(s: Seq<u8>) -> Seq<u8>
    recommends
        s.len() >= 4,
{
    seq![s[3], s[2], s[1], s[0]] + s.skip(4)
}

/// Byte-reverses the 4-byte leaf-index field at the front of a raw LMS
/// signature.
pub fn lms_svn_adjust(sig: &Vec<u8>) -> (r: Vec<u8>)
    requires
        sig@.len() >= 4,
    ensures
        r@ == lms_svn_adjust_spec(sig@),
        r@.len() == sig@.len(),
{
    let mut out: Vec<u8> = Vec::new();
    out.push(sig[3]);
    out.push(sig[2]);
    out.push(sig[1]);
    out.push(sig[0]);
    let mut i: usize = 4;
    while i < sig.len()
        invariant
            4 <= i <= sig@.len(),
            out@.len() == i,
            out@[0] == sig@[3] && out@[1] == sig@[2] && out@[2] == sig@[1] && out@[3] == sig@[0],
            forall|k: int| 4 <= k < i ==> out@[k] == sig@[k],
        decreases sig@.len() - i,
    {
        out.push(sig[i]);
        i = i + 1;
    }
    proof {
        assert(out@ =~= lms_svn_adjust_spec(sig@));
    }
    out
}

/// The raw form that a DER-encoded ECC P-384 signature parses to: 96 bytes
/// when the encoding is valid, nothing when it is not. Parsing is a function
/// of the input bytes alone.
pub uninterp spec fn ecdsa_der_parse(der: Seq<u8>) -> Option<Seq<u8>>;

/// The opaque error `p384::ecdsa` returns for a rejected signature encoding.
#[verifier::external_type_specification]
#[verifier::external_body]
pub struct ExSignatureError(p384::ecdsa::Error);

/// Relies on `p384::ecdsa::Signature::from_der` and `Signature::to_vec`:
/// `from_der` parses an ASN.1 DER signature, succeeding exactly when the
/// encoding is valid with both scalars in range, as a function of the input
/// bytes alone; `to_vec` serializes the parsed signature as the two 48-byte
/// big-endian scalars r then s, 96 bytes in all.
#[verifier::external_body]
fn ecc_sig_from_der(der: &Vec<u8>) -> (r: Result<Vec<u8>, p384::ecdsa::Error>)
    ensures
        match ecdsa_der_parse(der@) {
            Some(raw) => r matches Ok(v) && v@ == raw && raw.len() == ECC384_SIG_SIZE,
            None => r is Err,
        },
{
    p384::ecdsa::Signature::from_der(der.as_slice()).map(|sig| sig.to_vec())
}

/// Converts a detached DER-encoded ECC P-384 signature into the fixed-width,
/// word-swapped raw form the hardware verifier expects.
pub fn ecc_der_to_hw(der: &Vec<u8>) -> (r: Result<Vec<u8>, ManifestError>)
    ensures
        match ecdsa_der_parse(der@) {
            Some(raw) => r matches Ok(v) && v@ == word_swap_spec(raw) && v@.len()
                == ECC384_SIG_SIZE,
            None => r == Err::<Vec<u8>, ManifestError>(ManifestError::SignatureDecodeError),
        },
{
    let raw = match ecc_sig_from_der(der) {
        Ok(raw) => raw,
        Err(_) => {
            return Err(ManifestError::SignatureDecodeError);
        },
    };
    if raw.len() != ECC384_SIG_SIZE {
        return Err(ManifestError::SignatureSizeMismatch);
    }
    Ok(word_swap(&raw))
}

/// Checks a raw LMS signature destined for a manifest signature slot: it must
/// have the exact fixed size, and passes through unchanged.
pub fn lms_check_size(sig: &Vec<u8>) -> (r: Result<(), ManifestError>)
    ensures
        r is Ok <==> sig@.len() == LMS_SIG_SIZE,
        r matches Err(e) ==> e == ManifestError::SignatureSizeMismatch,
{
    if sig.len() != LMS_SIG_SIZE {
        return Err(ManifestError::SignatureSizeMismatch);
    }
    Ok(())
}

} // verus!
