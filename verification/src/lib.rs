//! Overlay of vendor/owner signature material onto a firmware authorization
//! manifest, together with embedding of a separately signed anti-rollback
//! (security-version) signature pair, before the manifest is baked into a
//! flashable image.
//!
//! The heart of the library is a fixed-offset, fixed-size binary codec for the
//! manifest's preamble and image-metadata collection, a converter that brings
//! detached signatures into the word-endianness the hardware verifier expects,
//! and the overlay steps that mutate individual preamble fields while leaving
//! every other byte untouched.

mod error;
pub mod codec;
pub mod convert;
pub mod digest;
pub mod overlay;
pub mod driver;
pub mod pathutil;
pub mod configmodel;
pub mod signer;

pub use error::ManifestError;
