//! Manifest overlay driver: a state machine that loads a manifest image,
//! applies the vendor overlay, embeds the security version, and closes by
//! materializing the output buffer — in that strict order.
//!
//! The in-memory record is exclusively owned by the driver for the command's
//! duration. Every error surfaces to the command's top level before the
//! `Closed` transition, so a failed overlay never produces output bytes.

use vstd::prelude::*;

use crate::codec;
use crate::codec::{
    decode_collection_spec, decode_preamble_spec, manifest_bytes, ImageMetadataCollection,
    ManifestPreamble, PreambleModel, LMS_SIG_SIZE, MANIFEST_IMAGE_SIZE, PREAMBLE_SIZE,
};
use crate::convert::{ecdsa_der_parse, word_swap_spec};
use crate::error::ManifestError;
use crate::overlay;
use crate::overlay::{
    all_zero, svn_embed_spec, vendor_ecc_overlay_spec, vendor_lms_overlay_spec, MissingSigPolicy,
    SVN_SIGNER_OUTPUT_SIZE,
};

verus! {

/// The driver's position in the strictly ordered overlay pipeline.
#[derive(Clone, Copy, Debug, PartialEq, Eq, Structural)]
pub enum OverlayState {
    Loaded,
    VendorOverlaid,
    SvnEmbedded,
    Closed,
}

/// The byte sequence behind an optional prebuilt-signature argument.
pub open spec fn opt_bytes(o: Option<&Vec<u8>>) -> Option<Seq<u8>> {
    match o {
        Some(v) => Some(v@),
        None => None,
    }
}

/// What the vendor ECC overlay does to a preamble: the result of the step
/// and the preamble it leaves behind (unchanged whenever the step fails).
pub open spec fn vendor_ecc_step(
    p: PreambleModel,
    ecc_der: Option<Seq<u8>>,
    policy: MissingSigPolicy,
) -> (Result<(), ManifestError>, PreambleModel) {
    if all_zero(p.vnd_manifest_ecc_sig) {
        (Ok(()), p)
    } else {
        match ecc_der {
            None => if policy == MissingSigPolicy::HardFail {
                (Err(ManifestError::MissingPrebuiltSignature), p)
            } else {
                (Ok(()), p)
            },
            Some(der) => match ecdsa_der_parse(der) {
                Some(raw) => (Ok(()), vendor_ecc_overlay_spec(p, word_swap_spec(raw))),
                None => (Err(ManifestError::SignatureDecodeError), p),
            },
        }
    }
}

/// What the vendor LMS overlay does to a preamble, in the same shape.
pub open spec fn vendor_lms_step(
    p: PreambleModel,
    lms_raw: Option<Seq<u8>>,
    policy: MissingSigPolicy,
) -> (Result<(), ManifestError>, PreambleModel) {
    if all_zero(p.vnd_manifest_lms_sig) {
        (Ok(()), p)
    } else {
        match lms_raw {
            None => if policy == MissingSigPolicy::HardFail {
                (Err(ManifestError::MissingPrebuiltSignature), p)
            } else {
                (Ok(()), p)
            },
            Some(raw) => if raw.len() == LMS_SIG_SIZE {
                (Ok(()), vendor_lms_overlay_spec(p, raw))
            } else {
                (Err(ManifestError::SignatureSizeMismatch), p)
            },
        }
    }
}

/// The whole vendor overlay: the ECC step followed, if it succeeded, by the
/// LMS step. The preamble component is what is left in memory afterwards —
/// on an LMS failure the ECC step's effect stands, but the driver then never
/// reaches `Closed`, so it is never written back.
pub open spec fn vendor_overlay_steps(
    p: PreambleModel,
    ecc_der: Option<Seq<u8>>,
    lms_raw: Option<Seq<u8>>,
    policy: MissingSigPolicy,
) -> (Result<(), ManifestError>, PreambleModel) {
    let (ecc_res, p1) = vendor_ecc_step(p, ecc_der, policy);
    if ecc_res is Err {
        (ecc_res, p1)
    } else {
        vendor_lms_step(p1, lms_raw, policy)
    }
}

/// No-op overlay: when both vendor signature slots are already zero, the
/// vendor overlay succeeds and leaves the preamble exactly as it was, so the
/// `VendorOverlaid` state equals the `Loaded` state byte for byte.
pub proof fn lemma_noop_vendor_overlay(
    p: PreambleModel,
    ecc_der: Option<Seq<u8>>,
    lms_raw: Option<Seq<u8>>,
    policy: MissingSigPolicy,
)
    requires
        all_zero(p.vnd_manifest_ecc_sig),
        all_zero(p.vnd_manifest_lms_sig),
    ensures
        vendor_overlay_steps(p, ecc_der, lms_raw, policy).0 is Ok,
        vendor_overlay_steps(p, ecc_der, lms_raw, policy).1 == p,
        vendor_overlay_steps(p, ecc_der, lms_raw, policy).1.bytes() == p.bytes(),
{
}

/// The manifest overlay driver: the decoded records plus the pipeline state.
#[derive(Debug)]
pub struct AspeedAuthorizationManifest {
    pub state: OverlayState,
    pub preamble: ManifestPreamble,
    pub metadata_col: ImageMetadataCollection,
}

impl AspeedAuthorizationManifest {
    /// Both records are well-formed.
    pub open spec fn inv(self) -> bool {
        &&& self.preamble@.wf()
        &&& self.metadata_col@.wf()
    }

    /// Loads a manifest image from the bytes read off disk. The buffer must
    /// hold at least the combined fixed record size; extra bytes are
    /// ignored.
    pub fn new(buffer: &Vec<u8>) -> (r: Result<AspeedAuthorizationManifest, ManifestError>)
        ensures
            r is Ok <==> buffer@.len() >= MANIFEST_IMAGE_SIZE,
            r matches Err(e) ==> e == ManifestError::TruncatedInput,
            r matches Ok(m) ==> {
                &&& m.state == OverlayState::Loaded
                &&& m.inv()
                &&& m.preamble@ == decode_preamble_spec(buffer@.subrange(0, PREAMBLE_SIZE as int))
                &&& m.metadata_col@ == decode_collection_spec(
                    buffer@.subrange(PREAMBLE_SIZE as int, MANIFEST_IMAGE_SIZE as int),
                )
                &&& manifest_bytes(m.preamble@, m.metadata_col@) == buffer@.subrange(
                    0,
                    MANIFEST_IMAGE_SIZE as int,
                )
            },
    {
        let (preamble, metadata_col) = match codec::decode(buffer) {
            Ok(pc) => pc,
            Err(e) => {
                return Err(e);
            },
        };
        Ok(AspeedAuthorizationManifest { state: OverlayState::Loaded, preamble, metadata_col })
    }

    /// The `Loaded` to `VendorOverlaid` transition: overlays the vendor ECC
    /// and LMS signature slots from the prebuilt sources, each algorithm
    /// independently. On failure the driver stays in `Loaded` and never
    /// reaches `Closed`.
    pub fn apply_vendor_overlay(
        &mut self,
        ecc_der: Option<&Vec<u8>>,
        lms_raw: Option<&Vec<u8>>,
        policy: MissingSigPolicy,
    ) -> (r: Result<(), ManifestError>)
        requires
            old(self).inv(),
            old(self).state == OverlayState::Loaded,
        ensures
            final(self).inv(),
            final(self).metadata_col == old(self).metadata_col,
            r == vendor_overlay_steps(
                old(self).preamble@,
                opt_bytes(ecc_der),
                opt_bytes(lms_raw),
                policy,
            ).0,
            final(self).preamble@ == vendor_overlay_steps(
                old(self).preamble@,
                opt_bytes(ecc_der),
                opt_bytes(lms_raw),
                policy,
            ).1,
            r is Ok ==> final(self).state == OverlayState::VendorOverlaid,
            r is Err ==> final(self).state == OverlayState::Loaded,
    {
        match overlay::modify_vnd_ecc_sig(&mut self.preamble, ecc_der, policy) {
            Ok(()) => (),
            Err(e) => {
                return Err(e);
            },
        }
        match overlay::modify_vnd_lms_sig(&mut self.preamble, lms_raw, policy) {
            Ok(()) => (),
            Err(e) => {
                return Err(e);
            },
        }
        self.state = OverlayState::VendorOverlaid;
        Ok(())
    }

    /// The `VendorOverlaid` to `SvnEmbedded` transition: embeds the security
    /// version and the external signer's signature pair into the owner SVN
    /// slots.
    pub fn insert_security_version(
        &mut self,
        security_version: u32,
        signer_output: &Vec<u8>,
    ) -> (r: Result<(), ManifestError>)
        requires
            old(self).inv(),
            old(self).state == OverlayState::VendorOverlaid,
        ensures
            final(self).inv(),
            final(self).metadata_col == old(self).metadata_col,
            r is Ok <==> signer_output@.len() >= SVN_SIGNER_OUTPUT_SIZE,
            r is Ok ==> {
                &&& final(self).state == OverlayState::SvnEmbedded
                &&& final(self).preamble@ == svn_embed_spec(
                    old(self).preamble@,
                    security_version,
                    signer_output@,
                )
            },
            r matches Err(e) ==> {
                &&& e == ManifestError::ExternalSignerFailed
                &&& final(self).state == OverlayState::VendorOverlaid
                &&& final(self).preamble@ == old(self).preamble@
            },
    {
        match overlay::insert_security_version(&mut self.preamble, security_version, signer_output)
        {
            Ok(()) => (),
            Err(e) => {
                return Err(e);
            },
        }
        self.state = OverlayState::SvnEmbedded;
        Ok(())
    }

    /// The transition to `Closed`: fully materializes the output buffer for
    /// the caller to write back over the manifest file. No partial buffer is
    /// ever exposed.
    pub fn close(&mut self) -> (r: Vec<u8>)
        requires
            old(self).inv(),
            old(self).state != OverlayState::Closed,
        ensures
            final(self).inv(),
            final(self).state == OverlayState::Closed,
            final(self).preamble == old(self).preamble,
            final(self).metadata_col == old(self).metadata_col,
            r@ == manifest_bytes(old(self).preamble@, old(self).metadata_col@),
            r@.len() == MANIFEST_IMAGE_SIZE,
    {
        let out = codec::encode(&self.preamble, &self.metadata_col);
        self.state = OverlayState::Closed;
        out
    }
}

} // verus!
