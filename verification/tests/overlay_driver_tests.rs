use cptra_imgtool::codec::MANIFEST_IMAGE_SIZE;
use cptra_imgtool::driver::{AspeedAuthorizationManifest, OverlayState};
use cptra_imgtool::overlay::{
    insert_security_version, modify_vnd_ecc_sig, modify_vnd_lms_sig, MissingSigPolicy,
};
use cptra_imgtool::ManifestError;

fn reference_word_swap(input: &[u8]) -> Vec<u8> {
    let mut out = Vec::new();
    for chunk in input.chunks(4) {
        out.extend(chunk.iter().rev());
    }
    out
}

fn sample_der_103() -> (Vec<u8>, Vec<u8>) {
    let mut r_bytes = vec![0x80u8];
    r_bytes.extend(vec![0x11u8; 47]);
    let mut s_bytes = vec![0x7Fu8];
    s_bytes.extend(vec![0x22u8; 47]);
    let mut der = vec![0x30, 0x65, 0x02, 0x31, 0x00];
    der.extend_from_slice(&r_bytes);
    der.push(0x02);
    der.push(0x30);
    der.extend_from_slice(&s_bytes);
    assert_eq!(der.len(), 103);
    let mut raw = r_bytes;
    raw.extend_from_slice(&s_bytes);
    (der, raw)
}

fn sample_buffer() -> Vec<u8> {
    (0..MANIFEST_IMAGE_SIZE).map(|i| (i % 251) as u8).collect()
}

/// A buffer whose vendor signature slots are zero but whose other fields
/// carry a recognizable pattern.
fn buffer_with_zero_vendor_slots() -> Vec<u8> {
    let mut buffer = sample_buffer();
    for b in &mut buffer[164..260] {
        *b = 0; // vendor ECC signature slot
    }
    for b in &mut buffer[260..1880] {
        *b = 0; // vendor LMS signature slot
    }
    buffer
}

#[test]
fn reencode_without_overlay_is_byte_identical() {
    let buffer = sample_buffer();
    let mut m = AspeedAuthorizationManifest::new(&buffer).unwrap();
    assert_eq!(m.state, OverlayState::Loaded);
    let out = m.close();
    assert_eq!(m.state, OverlayState::Closed);
    assert_eq!(out, buffer);
}

#[test]
fn new_rejects_short_buffer() {
    let buffer = vec![0u8; MANIFEST_IMAGE_SIZE - 100];
    let e = AspeedAuthorizationManifest::new(&buffer).unwrap_err();
    assert_eq!(e, ManifestError::TruncatedInput);
}

#[test]
fn noop_overlay_keeps_every_byte() {
    let buffer = buffer_with_zero_vendor_slots();
    let mut m = AspeedAuthorizationManifest::new(&buffer).unwrap();
    let (der, _) = sample_der_103();
    m.apply_vendor_overlay(Some(&der), None, MissingSigPolicy::HardFail).unwrap();
    assert_eq!(m.state, OverlayState::VendorOverlaid);
    let out = m.close();
    assert_eq!(out, buffer);
}

#[test]
fn zero_ecc_slot_keeps_slot_and_public_key() {
    let mut buffer = buffer_with_zero_vendor_slots();
    for (i, b) in buffer[20..116].iter_mut().enumerate() {
        *b = (i + 1) as u8; // vendor ECC public key pattern
    }
    let mut m = AspeedAuthorizationManifest::new(&buffer).unwrap();
    let (der, _) = sample_der_103();
    m.apply_vendor_overlay(Some(&der), None, MissingSigPolicy::HardFail).unwrap();
    let out = m.close();
    assert_eq!(out, buffer);
    assert_eq!(out[20], 1); // public key untouched
    assert!(out[164..260].iter().all(|b| *b == 0)); // slot still zero
}

#[test]
fn nonzero_ecc_slot_gets_word_swapped_signature_and_zeroed_keys() {
    let buffer = sample_buffer(); // vendor slots non-zero
    assert!(buffer[164..260].iter().any(|b| *b != 0));
    let mut m = AspeedAuthorizationManifest::new(&buffer).unwrap();
    let (der, raw) = sample_der_103();
    m.apply_vendor_overlay(Some(&der), Some(&vec![0x33u8; 1620]), MissingSigPolicy::HardFail)
        .unwrap();
    let out = m.close();
    assert_eq!(out[164..260], reference_word_swap(&raw)[..]);
    assert!(out[20..116].iter().all(|b| *b == 0)); // vendor ECC public key zeroed
    assert!(out[116..164].iter().all(|b| *b == 0)); // vendor LMS public key zeroed
    assert_eq!(out[260..1880], [0x33u8; 1620][..]); // vendor LMS slot overlaid
    assert_eq!(out[0..20], buffer[0..20]); // words untouched
    assert_eq!(out[1880..], buffer[1880..]); // everything after untouched
}

#[test]
fn missing_prebuilt_signature_fails_hard() {
    let buffer = sample_buffer();
    let mut m = AspeedAuthorizationManifest::new(&buffer).unwrap();
    let e = m.apply_vendor_overlay(None, None, MissingSigPolicy::HardFail).unwrap_err();
    assert_eq!(e, ManifestError::MissingPrebuiltSignature);
    assert_eq!(m.state, OverlayState::Loaded);
}

#[test]
fn missing_prebuilt_signature_can_be_skipped() {
    let buffer = sample_buffer();
    let mut m = AspeedAuthorizationManifest::new(&buffer).unwrap();
    m.apply_vendor_overlay(None, None, MissingSigPolicy::SilentSkip).unwrap();
    assert_eq!(m.state, OverlayState::VendorOverlaid);
    let out = m.close();
    assert_eq!(out, buffer);
}

#[test]
fn malformed_der_fails_decode() {
    let buffer = sample_buffer();
    let mut m = AspeedAuthorizationManifest::new(&buffer).unwrap();
    let garbage = vec![0x00u8; 10];
    let e = m.apply_vendor_overlay(Some(&garbage), None, MissingSigPolicy::HardFail).unwrap_err();
    assert_eq!(e, ManifestError::SignatureDecodeError);
}

#[test]
fn wrong_size_lms_signature_fails() {
    let buffer = sample_buffer();
    let mut p = {
        let m = AspeedAuthorizationManifest::new(&buffer).unwrap();
        m.preamble
    };
    let e = modify_vnd_lms_sig(&mut p, Some(&vec![1u8; 100]), MissingSigPolicy::HardFail)
        .unwrap_err();
    assert_eq!(e, ManifestError::SignatureSizeMismatch);
}

#[test]
fn ecc_overlay_alone_touches_only_its_fields() {
    let buffer = sample_buffer();
    let mut p = AspeedAuthorizationManifest::new(&buffer).unwrap().preamble;
    let (der, raw) = sample_der_103();
    modify_vnd_ecc_sig(&mut p, Some(&der), MissingSigPolicy::HardFail).unwrap();
    assert_eq!(p.vnd_manifest_ecc_sig, reference_word_swap(&raw));
    assert_eq!(p.vnd_manifest_ecc_pubk, vec![0u8; 96]);
    assert_eq!(p.vnd_manifest_lms_pubk, vec![0u8; 48]);
    // The LMS signature slot is not this step's business.
    assert_eq!(p.vnd_manifest_lms_sig[..], buffer[260..1880]);
}

#[test]
fn svn_embedding_writes_version_and_both_slots() {
    let buffer = buffer_with_zero_vendor_slots();
    let mut m = AspeedAuthorizationManifest::new(&buffer).unwrap();
    m.apply_vendor_overlay(None, None, MissingSigPolicy::HardFail).unwrap();

    let mut signer_output: Vec<u8> = (0..96).map(|i| (i + 1) as u8).collect();
    signer_output.extend((0..1620).map(|i| (i % 256) as u8));
    m.insert_security_version(5, &signer_output).unwrap();
    assert_eq!(m.state, OverlayState::SvnEmbedded);

    let out = m.close();
    assert_eq!(out[12..16], [5, 0, 0, 0]); // security version, little-endian
    assert_eq!(out[3740..3836], signer_output[0..96]); // SVN ECC slot unchanged
    assert_eq!(out[3836..3840], [3, 2, 1, 0]); // LMS leaf index reversed
    assert_eq!(out[3840..5456], signer_output[100..1716]); // LMS tail unchanged
    // Everything outside the three written fields matches the input.
    assert_eq!(out[0..12], buffer[0..12]);
    assert_eq!(out[16..3740], buffer[16..3740]);
    assert_eq!(out[5456..], buffer[5456..]);
}

#[test]
fn short_signer_output_fails() {
    let buffer = buffer_with_zero_vendor_slots();
    let mut m = AspeedAuthorizationManifest::new(&buffer).unwrap();
    m.apply_vendor_overlay(None, None, MissingSigPolicy::HardFail).unwrap();
    let short = vec![0u8; 96 + 1619];
    let e = m.insert_security_version(5, &short).unwrap_err();
    assert_eq!(e, ManifestError::ExternalSignerFailed);
    assert_eq!(m.state, OverlayState::VendorOverlaid);
    let out = m.close();
    assert_eq!(out, buffer); // nothing was embedded
}

#[test]
fn standalone_svn_embed_accepts_longer_output() {
    let buffer = sample_buffer();
    let mut p = AspeedAuthorizationManifest::new(&buffer).unwrap().preamble;
    let signer_output = vec![0x44u8; 1716 + 10];
    insert_security_version(&mut p, 9, &signer_output).unwrap();
    assert_eq!(p.security_version, 9);
    assert_eq!(p.owner_manifest_svn_ecc_sig, vec![0x44u8; 96]);
    assert_eq!(p.owner_manifest_svn_lms_sig.len(), 1620);
}
