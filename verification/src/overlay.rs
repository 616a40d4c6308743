//! Vendor signature overlay and security-version embedder.
//!
//! Both steps mutate individual preamble fields and leave every other field
//! untouched.
//!
//! The vendor overlay replaces a placeholder vendor signature with a prebuilt
//! one, per algorithm independently: a slot that is already all zero means
//! the manifest was not configured to require that vendor signature, so the
//! step skips it; a non-zero slot is overlaid with the converted prebuilt
//! signature, and the vendor public-key slots are zeroed to signal that
//! verification must use the trust-anchor key rather than an embedded key.
//! What to do when a non-zero slot has no prebuilt source is a configurable
//! policy: fail hard, or leave the builder-generated slot as it is.
//!
//! The security-version embedder takes the external signer's output — at
//! least 96 + 1620 bytes, the raw ECC signature followed by the raw LMS
//! signature — writes the security version, stores the ECC part unchanged
//! and the LMS part with its leaf-index field byte-reversed.

use vstd::prelude::*;

use crate::codec::{
    ManifestPreamble, PreambleModel, ECC384_PUBK_SIZE, ECC384_SIG_SIZE, LMS_PUBK_SIZE,
    LMS_SIG_SIZE,
};
use crate::convert::{
    ecc_der_to_hw, ecdsa_der_parse, lms_svn_adjust, lms_svn_adjust_spec, word_swap_spec,
};
use crate::error::ManifestError;

verus! {

/// A sequence of `n` zero bytes.
pub open spec fn zero_seq(n: nat) -> Seq<u8> {
    Seq::new(n, |i: int| 0u8)
}

/// Whether every byte of `s` is zero.
pub open spec fn all_zero(s: Seq<u8>) -> bool {
    forall|i: int| 0 <= i < s.len() ==> s[i] == 0
}

/// Checks whether every byte of `v` is zero.
pub fn is_all_zero(v: &Vec<u8>) -> (r: bool)
    ensures
        r == all_zero(v@),
{
    let mut i: usize = 0;
    while i < v.len()
        invariant
            0 <= i <= v@.len(),
            forall|k: int| 0 <= k < i ==> v@[k] == 0,
        decreases v@.len() - i,
    {
        if v[i] != 0 {
            return false;
        }
        i = i + 1;
    }
    true
}

/// A vector of `n` zero bytes.
pub fn zero_vec(n: usize) -> (r: Vec<u8>)
    ensures
        r@ == zero_seq(n as nat),
        r@.len() == n,
{
    let v = vec![0u8; n];
    proof {
        assert(v@ =~= zero_seq(n as nat));
    }
    v
}

/// What to do when a signature slot requires an overlay but no prebuilt
/// source is available: treat it as a configuration error, or leave the
/// builder-generated slot untouched.
#[derive(Clone, Copy, Debug, PartialEq, Eq, Structural)]
pub enum MissingSigPolicy {
    HardFail,
    SilentSkip,
}

/// The preamble after the vendor ECC signature slot is overlaid with `sig`
/// and the vendor public-key slots are zeroed.
pub open spec fn vendor_ecc_overlay_spec(p: PreambleModel, sig: Seq<u8>) -> PreambleModel {
    PreambleModel {
        vnd_manifest_ecc_pubk: zero_seq(ECC384_PUBK_SIZE as nat),
        vnd_manifest_lms_pubk: zero_seq(LMS_PUBK_SIZE as nat),
        vnd_manifest_ecc_sig: sig,
        ..p
    }
}

/// The preamble after the vendor LMS signature slot is overlaid with `sig`
/// and the vendor public-key slots are zeroed.
pub open spec fn vendor_lms_overlay_spec(p: PreambleModel, sig: Seq<u8>) -> PreambleModel {
    PreambleModel {
        vnd_manifest_ecc_pubk: zero_seq(ECC384_PUBK_SIZE as nat),
        vnd_manifest_lms_pubk: zero_seq(LMS_PUBK_SIZE as nat),
        vnd_manifest_lms_sig: sig,
        ..p
    }
}

/// Overlays the vendor ECC signature slot with a prebuilt DER-encoded
/// signature, converted to the hardware's word-swapped raw form.
///
/// A slot that is already all zero is skipped, the preamble untouched. A
/// non-zero slot with no prebuilt source follows `policy`. Whenever the
/// result is an error, the preamble is untouched.
pub fn modify_vnd_ecc_sig(
    p: &mut ManifestPreamble,
    prebuilt_der: Option<&Vec<u8>>,
    policy: MissingSigPolicy,
) -> (r: Result<(), ManifestError>)
    ensures
        all_zero(old(p)@.vnd_manifest_ecc_sig) ==> r is Ok && final(p)@ == old(p)@,
        !all_zero(old(p)@.vnd_manifest_ecc_sig) && prebuilt_der is None ==> {
            &&& final(p)@ == old(p)@
            &&& policy == MissingSigPolicy::HardFail ==> r == Err::<(), ManifestError>(
                ManifestError::MissingPrebuiltSignature,
            )
            &&& policy == MissingSigPolicy::SilentSkip ==> r is Ok
        },
        !all_zero(old(p)@.vnd_manifest_ecc_sig) ==> (prebuilt_der matches Some(der) ==> match
            ecdsa_der_parse(der@) {
            Some(raw) => r is Ok && final(p)@ == vendor_ecc_overlay_spec(
                old(p)@,
                word_swap_spec(raw),
            ),
            None => r == Err::<(), ManifestError>(ManifestError::SignatureDecodeError) && final(p)@
                == old(p)@,
        }),
        old(p)@.wf() ==> final(p)@.wf(),
{
    if is_all_zero(&p.vnd_manifest_ecc_sig) {
        return Ok(());
    }
    match prebuilt_der {
        None => match policy {
            MissingSigPolicy::HardFail => Err(ManifestError::MissingPrebuiltSignature),
            MissingSigPolicy::SilentSkip => Ok(()),
        },
        Some(der) => {
            let sig = match ecc_der_to_hw(der) {
                Ok(sig) => sig,
                Err(e) => {
                    return Err(e);
                },
            };
            p.vnd_manifest_ecc_pubk = zero_vec(ECC384_PUBK_SIZE);
            p.vnd_manifest_lms_pubk = zero_vec(LMS_PUBK_SIZE);
            p.vnd_manifest_ecc_sig = sig;
            Ok(())
        },
    }
}

/// Overlays the vendor LMS signature slot with a prebuilt raw signature,
/// passed through unchanged (no leaf-index reversal on this path).
///
/// A slot that is already all zero is skipped, the preamble untouched. A
/// non-zero slot with no prebuilt source follows `policy`. A prebuilt
/// signature of the wrong size is rejected. Whenever the result is an error,
/// the preamble is untouched.
pub fn modify_vnd_lms_sig(
    p: &mut ManifestPreamble,
    prebuilt_raw: Option<&Vec<u8>>,
    policy: MissingSigPolicy,
) -> (r: Result<(), ManifestError>)
    ensures
        all_zero(old(p)@.vnd_manifest_lms_sig) ==> r is Ok && final(p)@ == old(p)@,
        !all_zero(old(p)@.vnd_manifest_lms_sig) && prebuilt_raw is None ==> {
            &&& final(p)@ == old(p)@
            &&& policy == MissingSigPolicy::HardFail ==> r == Err::<(), ManifestError>(
                ManifestError::MissingPrebuiltSignature,
            )
            &&& policy == MissingSigPolicy::SilentSkip ==> r is Ok
        },
        !all_zero(old(p)@.vnd_manifest_lms_sig) ==> (prebuilt_raw matches Some(raw) ==> {
            &&& raw@.len() == LMS_SIG_SIZE ==> r is Ok && final(p)@ == vendor_lms_overlay_spec(
                old(p)@,
                raw@,
            )
            &&& raw@.len() != LMS_SIG_SIZE ==> r == Err::<(), ManifestError>(
                ManifestError::SignatureSizeMismatch,
            ) && final(p)@ == old(p)@
        }),
        old(p)@.wf() ==> final(p)@.wf(),
{
    if is_all_zero(&p.vnd_manifest_lms_sig) {
        return Ok(());
    }
    match prebuilt_raw {
        None => match policy {
            MissingSigPolicy::HardFail => Err(ManifestError::MissingPrebuiltSignature),
            MissingSigPolicy::SilentSkip => Ok(()),
        },
        Some(raw) => {
            match crate::convert::lms_check_size(raw) {
                Ok(()) => (),
                Err(e) => {
                    return Err(e);
                },
            }
            p.vnd_manifest_ecc_pubk = zero_vec(ECC384_PUBK_SIZE);
            p.vnd_manifest_lms_pubk = zero_vec(LMS_PUBK_SIZE);
            p.vnd_manifest_lms_sig = raw.clone();
            Ok(())
        },
    }
}

/// The number of signer-output bytes the embedder consumes: the raw ECC
/// signature followed by the raw LMS signature.
pub const SVN_SIGNER_OUTPUT_SIZE: usize = 1716;

/// The preamble after the security version and the signer's signature pair
/// are embedded: the ECC part stored unchanged, the LMS part with its
/// leaf-index field byte-reversed.
pub open spec fn svn_embed_spec(
    p: PreambleModel,
    security_version: u32,
    signer_output: Seq<u8>,
) -> PreambleModel
    recommends
        signer_output.len() >= SVN_SIGNER_OUTPUT_SIZE,
{
    PreambleModel {
        security_version: security_version,
        owner_manifest_svn_ecc_sig: signer_output.subrange(0, ECC384_SIG_SIZE as int),
        owner_manifest_svn_lms_sig: lms_svn_adjust_spec(
            signer_output.subrange(ECC384_SIG_SIZE as int, SVN_SIGNER_OUTPUT_SIZE as int),
        ),
        ..p
    }
}

/// Embeds the security version and the external signer's signature pair into
/// the owner SVN slots.
///
/// `signer_output` is what the signer wrote back: it must hold at least the
/// 96-byte ECC signature followed by the 1620-byte LMS signature; anything
/// shorter fails, the preamble untouched. Bytes beyond the pair are ignored.
pub fn insert_security_version(
    p: &mut ManifestPreamble,
    security_version: u32,
    signer_output: &Vec<u8>,
) -> (r: Result<(), ManifestError>)
    ensures
        r is Ok <==> signer_output@.len() >= SVN_SIGNER_OUTPUT_SIZE,
        r matches Err(e) ==> e == ManifestError::ExternalSignerFailed && final(p)@ == old(p)@,
        r is Ok ==> final(p)@ == svn_embed_spec(old(p)@, security_version, signer_output@),
        old(p)@.wf() ==> final(p)@.wf(),
{
    if signer_output.len() < SVN_SIGNER_OUTPUT_SIZE {
        return Err(ManifestError::ExternalSignerFailed);
    }
    let ecc_sig = vstd::slice::slice_to_vec(
        vstd::slice::slice_subrange(signer_output.as_slice(), 0, ECC384_SIG_SIZE),
    );
    let lms_raw = vstd::slice::slice_to_vec(
        vstd::slice::slice_subrange(signer_output.as_slice(), ECC384_SIG_SIZE,
            SVN_SIGNER_OUTPUT_SIZE),
    );
    let lms_sig = lms_svn_adjust(&lms_raw);
    p.security_version = security_version;
    p.owner_manifest_svn_ecc_sig = ecc_sig;
    p.owner_manifest_svn_lms_sig = lms_sig;
    proof {
        assert(final(p)@ =~= svn_embed_spec(old(p)@, security_version, signer_output@));
    }
    Ok(())
}

} // verus!
