//! Digest/padding utility.
//!
//! The digest of a firmware image is the SHA-384 hash of its contents after a
//! fixed, deterministic pre-processing step: the input is padded with zero
//! bytes up to the next multiple of 4. The same digest is used both for the
//! per-image metadata entries and as input to the external signer, where it
//! travels hex-encoded.

use vstd::prelude::*;

use crate::codec::SHA384_DIGEST_SIZE;

verus! {

/// How many padding bytes bring `len` up to the next multiple of `aligned`.
pub open spec fn pad_len(len: int, aligned: int) -> int
    recommends
        aligned > 0,
{
    (aligned - len % aligned) % aligned
}

/// `data` followed by just enough `pad` bytes to reach a multiple of
/// `aligned`.
pub open spec fn pad_spec(data: Seq<u8>, pad: u8, aligned: int) -> Seq<u8>
    recommends
        aligned > 0,
{
    data + Seq::new(pad_len(data.len() as int, aligned) as nat, |i: int| pad)
}

/// Pads `data` with `pad` bytes up to the next multiple of `aligned`.
pub fn pad_to_aligned(data: Vec<u8>, pad: u8, aligned: usize) -> (r: Vec<u8>)
    requires
        aligned > 0,
    ensures
        r@ == pad_spec(data@, pad, aligned as int),
        r@.len() as int % aligned as int == 0,
{
    let mut data = data;
    let ghost orig = data@;
    let pad_count = (aligned - (data.len() % aligned)) % aligned;
    let mut i: usize = 0;
    while i < pad_count
        invariant
            0 <= i <= pad_count,
            pad_count == pad_len(orig.len() as int, aligned as int),
            data@ == orig + Seq::new(i as nat, |k: int| pad),
        decreases pad_count - i,
    {
        data.push(pad);
        proof {
            assert(data@ =~= orig + Seq::new(i as nat + 1, |k: int| pad));
        }
        i = i + 1;
    }
    proof {
        let a = aligned as int;
        let n = orig.len() as int;
        vstd::arithmetic::div_mod::lemma_fundamental_div_mod(n, a);
        vstd::arithmetic::div_mod::lemma_mod_self_0(a);
        if n % a == 0 {
            vstd::arithmetic::div_mod::lemma_small_mod(0nat, a as nat);
            assert(data@.len() as int % a == 0);
        } else {
            vstd::arithmetic::div_mod::lemma_small_mod((a - n % a) as nat, a as nat);
            assert(data@.len() as int == a * (n / a) + a);
            assert((a * (n / a) + a) % a == 0) by (nonlinear_arith)
                requires
                    a > 0,
            ;
        }
    }
    data
}

/// An input already a multiple of 4 long is hashed unchanged.
pub proof fn lemma_pad_aligned_identity(b: Seq<u8>)
    requires
        b.len() % 4 == 0,
    ensures
        pad_spec(b, 0, 4) == b,
{
    assert(pad_spec(b, 0, 4) =~= b);
}

/// An input one byte short of a multiple of 4 is hashed with exactly one
/// zero byte appended.
pub proof fn lemma_pad_one_zero(b: Seq<u8>)
    requires
        b.len() % 4 == 3,
    ensures
        pad_spec(b, 0, 4) == b.push(0u8),
{
    assert(pad_spec(b, 0, 4) =~= b.push(0u8));
}

/// The SHA-384 digest of a byte sequence: a function of the bytes alone,
/// left without a definition here and computed only by the hash crate.
pub uninterp spec fn sha384_of(data: Seq<u8>) -> Seq<u8>;

/// Relies on `sha2::Sha384`: the digest is a function of the input bytes
/// alone and is always 48 bytes long.
#[verifier::external_body]
fn sha384(data: &Vec<u8>) -> (r: Vec<u8>)
    ensures
        r@ == sha384_of(data@),
        r@.len() == SHA384_DIGEST_SIZE,
{
    <sha2::Sha384 as sha2::Digest>::digest(data.as_slice()).to_vec()
}

/// The 48-byte image digest: SHA-384 of the input padded with zero bytes to
/// the next multiple of 4.
pub fn digest(data: &Vec<u8>) -> (r: Vec<u8>)
    ensures
        r@ == sha384_of(pad_spec(data@, 0, 4)),
        r@.len() == SHA384_DIGEST_SIZE,
{
    let padded = pad_to_aligned(data.clone(), 0, 4);
    sha384(&padded)
}

/// The lowercase hex digit for a value below 16.
pub open spec fn hex_digit(n: u8) -> char
    recommends
        n < 16,
{
    if n < 10 {
        (48 + n) as char
    } else {
        (87 + n) as char
    }
}

/// The lowercase hex encoding of a byte sequence, two digits per byte, high
/// nibble first.
pub open spec fn hex_of(b: Seq<u8>) -> Seq<char> {
    Seq::new(
        2 * b.len(),
        |i: int| if i % 2 == 0 {
            hex_digit(b[i / 2] / 16)
        } else {
            hex_digit(b[i / 2] % 16)
        },
    )
}

/// Relies on `hex::encode`: two lowercase hex digits per input byte, high
/// nibble first.
#[verifier::external_body]
fn hex_encode(data: &Vec<u8>) -> (r: String)
    ensures
        r@ == hex_of(data@),
{
    hex::encode(data.as_slice())
}

/// The image digest in the hex form the configuration and the signer
/// protocol carry.
pub fn digest_hex(data: &Vec<u8>) -> (r: String)
    ensures
        r@ == hex_of(sha384_of(pad_spec(data@, 0, 4))),
        r@.len() == 2 * SHA384_DIGEST_SIZE,
{
    let d = digest(data);
    hex_encode(&d)
}

/// The value of one hex digit, either case, if it is one.
pub open spec fn hex_char_val(c: char) -> Option<u8> {
    let n = c as u32;
    if 48 <= n <= 57 {
        Some((n - 48) as u8)
    } else if 97 <= n <= 102 {
        Some((n - 87) as u8)
    } else if 65 <= n <= 70 {
        Some((n - 55) as u8)
    } else {
        None
    }
}

/// Whether a character sequence is a decodable hex string: even length, hex
/// digits throughout.
pub open spec fn valid_hex(s: Seq<char>) -> bool {
    &&& s.len() % 2 == 0
    &&& forall|i: int| 0 <= i < s.len() ==> (#[trigger] hex_char_val(s[i])) is Some
}

/// The bytes a valid hex string denotes.
pub open spec fn hex_decode_spec(s: Seq<char>) -> Seq<u8>
    recommends
        valid_hex(s),
{
    Seq::new(
        (s.len() / 2) as nat,
        |i: int| (16 * hex_char_val(s[2 * i]).unwrap() + hex_char_val(
            s[2 * i + 1],
        ).unwrap()) as u8,
    )
}

/// The error `hex::decode` returns for odd lengths and non-hex characters.
#[verifier::external_type_specification]
#[verifier::external_body]
pub struct ExFromHexError(hex::FromHexError);

/// Relies on `hex::decode`: it succeeds exactly on even-length strings of
/// hex digits (upper or lower case), pairing the digits high nibble first.
#[verifier::external_body]
fn hex_decode(s: &str) -> (r: Result<Vec<u8>, hex::FromHexError>)
    ensures
        r is Ok <==> valid_hex(s@),
        r matches Ok(v) ==> v@ == hex_decode_spec(s@),
{
    hex::decode(s)
}

/// Decodes the hex digest line handed to the signer protocol.
pub fn decode_hex_digest(s: &str) -> (r: Result<Vec<u8>, crate::ManifestError>)
    ensures
        r is Ok <==> valid_hex(s@),
        r matches Ok(v) ==> v@ == hex_decode_spec(s@),
        r matches Err(e) ==> e == crate::ManifestError::ConfigError,
{
    match hex_decode(s) {
        Ok(v) => Ok(v),
        Err(_) => Err(crate::ManifestError::ConfigError),
    }
}

} // verus!
