//! Error kinds surfaced by the manifest overlay pipeline.
//!
//! Every error aborts the whole command at its top level: a failed overlay
//! never produces a written-back manifest.

use vstd::prelude::*;

verus! {

/// The ways an overlay command can fail.
#[derive(Clone, Copy, Debug, PartialEq, Eq, Structural)]
pub enum ManifestError {
    /// The manifest buffer is shorter than the two fixed record sizes demand.
    TruncatedInput,
    /// A detached ECC signature could not be parsed from its DER encoding.
    SignatureDecodeError,
    /// A converted signature does not have its expected fixed size.
    SignatureSizeMismatch,
    /// A signature slot requires an overlay but no prebuilt source is available.
    MissingPrebuiltSignature,
    /// The external signer exited abnormally or produced too short an output.
    ExternalSignerFailed,
    /// The configuration input is malformed or unusable.
    ConfigError,
    /// A referenced file or directory does not exist.
    PathNotFound,
}

impl ManifestError {
    /// A short human-readable description, usable by callers that report the
    /// failing step's context.
    pub fn describe(&self) -> (r: &'static str)
        ensures
            r@.len() > 0,
    {
        let s = match self {
            ManifestError::TruncatedInput => "manifest buffer too short to decode",
            ManifestError::SignatureDecodeError => "failed to parse DER signature",
            ManifestError::SignatureSizeMismatch => "signature has unexpected size",
            ManifestError::MissingPrebuiltSignature => "signature slot set but no prebuilt signature available",
            ManifestError::ExternalSignerFailed => "external signer failed or returned too little data",
            ManifestError::ConfigError => "malformed or unreadable configuration",
            ManifestError::PathNotFound => "path or file not found",
        };
        proof {
            reveal_strlit("manifest buffer too short to decode");
            reveal_strlit("failed to parse DER signature");
            reveal_strlit("signature has unexpected size");
            reveal_strlit("signature slot set but no prebuilt signature available");
            reveal_strlit("external signer failed or returned too little data");
            reveal_strlit("malformed or unreadable configuration");
            reveal_strlit("path or file not found");
        }
        s
    }
}

} // verus!
