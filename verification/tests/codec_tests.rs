use cptra_imgtool::codec::{
    decode, encode, ImageMetadataCollection, ImageMetadataEntry, IMAGE_METADATA_MAX_COUNT,
    MANIFEST_IMAGE_SIZE, METADATA_COLLECTION_SIZE, PREAMBLE_SIZE,
};
use cptra_imgtool::ManifestError;

fn sample_buffer() -> Vec<u8> {
    (0..MANIFEST_IMAGE_SIZE).map(|i| (i % 251) as u8).collect()
}

#[test]
fn sizes_add_up() {
    assert_eq!(PREAMBLE_SIZE, 8888);
    assert_eq!(METADATA_COLLECTION_SIZE, 4 + 127 * 56);
    assert_eq!(MANIFEST_IMAGE_SIZE, PREAMBLE_SIZE + METADATA_COLLECTION_SIZE);
}

#[test]
fn roundtrip_exact_size_buffer() {
    let buffer = sample_buffer();
    let (preamble, collection) = decode(&buffer).unwrap();
    let out = encode(&preamble, &collection);
    assert_eq!(out, buffer);
}

#[test]
fn roundtrip_all_zero_buffer() {
    let buffer = vec![0u8; MANIFEST_IMAGE_SIZE];
    let (preamble, collection) = decode(&buffer).unwrap();
    assert_eq!(preamble.magic, 0);
    assert_eq!(collection.count, 0);
    let out = encode(&preamble, &collection);
    assert_eq!(out, buffer);
}

#[test]
fn decode_reads_little_endian_words() {
    let mut buffer = vec![0u8; MANIFEST_IMAGE_SIZE];
    buffer[0..4].copy_from_slice(&[0x78, 0x56, 0x34, 0x12]); // magic
    buffer[4..8].copy_from_slice(&[0x04, 0x00, 0x00, 0x00]); // size
    buffer[8..12].copy_from_slice(&[0x02, 0x00, 0x00, 0x00]); // version
    buffer[12..16].copy_from_slice(&[0x05, 0x00, 0x00, 0x00]); // security version
    buffer[16..20].copy_from_slice(&[0x01, 0x00, 0x00, 0x00]); // flags
    let (preamble, _) = decode(&buffer).unwrap();
    assert_eq!(preamble.magic, 0x12345678);
    assert_eq!(preamble.size, 4);
    assert_eq!(preamble.version, 2);
    assert_eq!(preamble.security_version, 5);
    assert_eq!(preamble.flags, 1);
}

#[test]
fn decode_reads_signature_slots_at_fixed_offsets() {
    let mut buffer = vec![0u8; MANIFEST_IMAGE_SIZE];
    for (i, b) in buffer[164..260].iter_mut().enumerate() {
        *b = (i + 1) as u8; // vendor ECC signature slot
    }
    for (i, b) in buffer[3740..3836].iter_mut().enumerate() {
        *b = (i + 7) as u8; // owner SVN ECC signature slot
    }
    let (preamble, _) = decode(&buffer).unwrap();
    assert_eq!(preamble.vnd_manifest_ecc_sig[0], 1);
    assert_eq!(preamble.vnd_manifest_ecc_sig[95], 96);
    assert_eq!(preamble.owner_manifest_svn_ecc_sig[0], 7);
    assert_eq!(preamble.owner_manifest_svn_ecc_sig.len(), 96);
}

#[test]
fn decode_reads_metadata_entries() {
    let mut buffer = vec![0u8; MANIFEST_IMAGE_SIZE];
    buffer[PREAMBLE_SIZE..PREAMBLE_SIZE + 4].copy_from_slice(&[2, 0, 0, 0]); // count
    let e0 = PREAMBLE_SIZE + 4;
    buffer[e0..e0 + 4].copy_from_slice(&[10, 0, 0, 0]); // id
    buffer[e0 + 4..e0 + 8].copy_from_slice(&[3, 0, 0, 0]); // flags
    buffer[e0 + 8] = 0xAB; // first digest byte
    let e1 = e0 + 56;
    buffer[e1..e1 + 4].copy_from_slice(&[11, 0, 0, 0]);
    let (_, collection) = decode(&buffer).unwrap();
    assert_eq!(collection.count, 2);
    assert_eq!(collection.metadata_list.len(), IMAGE_METADATA_MAX_COUNT);
    assert_eq!(collection.metadata_list[0].id, 10);
    assert_eq!(collection.metadata_list[0].flags, 3);
    assert_eq!(collection.metadata_list[0].digest[0], 0xAB);
    assert_eq!(collection.metadata_list[1].id, 11);
}

#[test]
fn decode_ignores_trailing_bytes() {
    let mut buffer = sample_buffer();
    buffer.extend_from_slice(&[0xEE; 37]);
    let (preamble, collection) = decode(&buffer).unwrap();
    let out = encode(&preamble, &collection);
    assert_eq!(out[..], buffer[..MANIFEST_IMAGE_SIZE]);
}

#[test]
fn decode_short_buffer_is_truncated_input() {
    let buffer = vec![0u8; MANIFEST_IMAGE_SIZE - 1];
    assert_eq!(decode(&buffer).unwrap_err(), ManifestError::TruncatedInput);
    let empty: Vec<u8> = Vec::new();
    assert_eq!(decode(&empty).unwrap_err(), ManifestError::TruncatedInput);
}

fn entry(id: u32, flags: u32, fill: u8) -> ImageMetadataEntry {
    ImageMetadataEntry { id, flags, digest: vec![fill; 48] }
}

#[test]
fn collection_new_pads_with_zero_entries() {
    let c = ImageMetadataCollection::new(vec![entry(1, 0, 0x5A), entry(2, 1, 0x6B)]).unwrap();
    assert_eq!(c.count, 2);
    assert_eq!(c.metadata_list.len(), IMAGE_METADATA_MAX_COUNT);
    assert_eq!(c.metadata_list[0].id, 1);
    assert_eq!(c.metadata_list[1].digest, vec![0x6B; 48]);
    assert_eq!(c.metadata_list[2].id, 0);
    assert_eq!(c.metadata_list[2].digest, vec![0u8; 48]);
    assert_eq!(c.metadata_list[126].id, 0);
}

#[test]
fn collection_new_accepts_exactly_full_capacity() {
    let entries: Vec<_> = (0..127).map(|i| entry(i as u32, 0, 0)).collect();
    let c = ImageMetadataCollection::new(entries).unwrap();
    assert_eq!(c.count, 127);
    assert_eq!(c.metadata_list[126].id, 126);
}

#[test]
fn collection_new_rejects_more_than_capacity() {
    let entries: Vec<_> = (0..128).map(|i| entry(i as u32, 0, 0)).collect();
    let r = ImageMetadataCollection::new(entries);
    assert_eq!(r.unwrap_err(), ManifestError::ConfigError);
}
