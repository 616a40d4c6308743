//! Fixed-offset, fixed-size binary codec for the manifest preamble and the
//! image-metadata collection.
//!
//! The on-disk manifest is the preamble immediately followed by the metadata
//! collection, with no gap and no implicit padding. Decoding works on an
//! arbitrary byte buffer (no alignment assumed); encoding re-materializes the
//! records byte for byte, so that a decode followed by an encode reproduces
//! the input buffer exactly.
//!
//! Multi-byte numeric fields are little-endian. Signature, public-key and
//! digest fields are opaque byte arrays; their internal byte order is the
//! converter's business, not the codec's.

use vstd::prelude::*;
use vstd::bytes::{spec_u32_to_le_bytes, spec_u32_from_le_bytes, lemma_auto_spec_u32_to_from_le_bytes};
use vstd::bytes::{u32_from_le_bytes, u32_to_le_bytes};
use vstd::slice::{slice_subrange, slice_to_vec};

use crate::error::ManifestError;

verus! {

/// Size in bytes of an ECC P-384 signature in raw (r || s) form.
pub const ECC384_SIG_SIZE: usize = 96;

/// Size in bytes of an ECC P-384 public key.
pub const ECC384_PUBK_SIZE: usize = 96;

/// Size in bytes of a SHA-384 digest.
pub const SHA384_DIGEST_SIZE: usize = 48;

/// Size in bytes of a raw LMS signature.
pub const LMS_SIG_SIZE: usize = 1620;

/// Size in bytes of an LMS public key.
pub const LMS_PUBK_SIZE: usize = 48;

/// Fixed capacity of the image-metadata collection.
pub const IMAGE_METADATA_MAX_COUNT: usize = 127;

/// Total encoded size of the preamble record:
/// five 32-bit words followed by fourteen fixed-size byte-array slots.
pub const PREAMBLE_SIZE: usize = 8888;

/// Encoded size of one image-metadata entry: id, flags, digest.
pub const METADATA_ENTRY_SIZE: usize = 56;

/// Total encoded size of the metadata collection record:
/// the count word followed by the full fixed-capacity entry array.
pub const METADATA_COLLECTION_SIZE: usize = 7116;

/// Total encoded size of the whole manifest image.
pub const MANIFEST_IMAGE_SIZE: usize = 16004;

/// Fixed-size header record of the manifest, holding the verbatim words of
/// the upstream builder, the security version, and the signature and
/// public-key slots.
#[derive(Debug)]
pub struct ManifestPreamble {
    pub magic: u32,
    pub size: u32,
    pub version: u32,
    pub security_version: u32,
    pub flags: u32,
    pub vnd_manifest_ecc_pubk: Vec<u8>,
    pub vnd_manifest_lms_pubk: Vec<u8>,
    pub vnd_manifest_ecc_sig: Vec<u8>,
    pub vnd_manifest_lms_sig: Vec<u8>,
    pub owner_manifest_ecc_pubk: Vec<u8>,
    pub owner_manifest_lms_pubk: Vec<u8>,
    pub owner_manifest_ecc_sig: Vec<u8>,
    pub owner_manifest_lms_sig: Vec<u8>,
    pub owner_manifest_svn_ecc_sig: Vec<u8>,
    pub owner_manifest_svn_lms_sig: Vec<u8>,
    pub vnd_metadata_ecc_sig: Vec<u8>,
    pub vnd_metadata_lms_sig: Vec<u8>,
    pub owner_metadata_ecc_sig: Vec<u8>,
    pub owner_metadata_lms_sig: Vec<u8>,
}

/// Mathematical model of a preamble: the same fields with byte sequences in
/// place of byte vectors.
#[verifier::ext_equal]
pub struct PreambleModel {
    pub magic: u32,
    pub size: u32,
    pub version: u32,
    pub security_version: u32,
    pub flags: u32,
    pub vnd_manifest_ecc_pubk: Seq<u8>,
    pub vnd_manifest_lms_pubk: Seq<u8>,
    pub vnd_manifest_ecc_sig: Seq<u8>,
    pub vnd_manifest_lms_sig: Seq<u8>,
    pub owner_manifest_ecc_pubk: Seq<u8>,
    pub owner_manifest_lms_pubk: Seq<u8>,
    pub owner_manifest_ecc_sig: Seq<u8>,
    pub owner_manifest_lms_sig: Seq<u8>,
    pub owner_manifest_svn_ecc_sig: Seq<u8>,
    pub owner_manifest_svn_lms_sig: Seq<u8>,
    pub vnd_metadata_ecc_sig: Seq<u8>,
    pub vnd_metadata_lms_sig: Seq<u8>,
    pub owner_metadata_ecc_sig: Seq<u8>,
    pub owner_metadata_lms_sig: Seq<u8>,
}

impl View for ManifestPreamble {
    type V = PreambleModel;

    open spec fn view(&self) -> PreambleModel {
        PreambleModel {
            magic: self.magic,
            size: self.size,
            version: self.version,
            security_version: self.security_version,
            flags: self.flags,
            vnd_manifest_ecc_pubk: self.vnd_manifest_ecc_pubk@,
            vnd_manifest_lms_pubk: self.vnd_manifest_lms_pubk@,
            vnd_manifest_ecc_sig: self.vnd_manifest_ecc_sig@,
            vnd_manifest_lms_sig: self.vnd_manifest_lms_sig@,
            owner_manifest_ecc_pubk: self.owner_manifest_ecc_pubk@,
            owner_manifest_lms_pubk: self.owner_manifest_lms_pubk@,
            owner_manifest_ecc_sig: self.owner_manifest_ecc_sig@,
            owner_manifest_lms_sig: self.owner_manifest_lms_sig@,
            owner_manifest_svn_ecc_sig: self.owner_manifest_svn_ecc_sig@,
            owner_manifest_svn_lms_sig: self.owner_manifest_svn_lms_sig@,
            vnd_metadata_ecc_sig: self.vnd_metadata_ecc_sig@,
            vnd_metadata_lms_sig: self.vnd_metadata_lms_sig@,
            owner_metadata_ecc_sig: self.owner_metadata_ecc_sig@,
            owner_metadata_lms_sig: self.owner_metadata_lms_sig@,
        }
    }
}

impl PreambleModel {
    /// Every slot has its fixed size.
    pub open spec fn wf(self) -> bool {
        &&& self.vnd_manifest_ecc_pubk.len() == ECC384_PUBK_SIZE
        &&& self.vnd_manifest_lms_pubk.len() == LMS_PUBK_SIZE
        &&& self.vnd_manifest_ecc_sig.len() == ECC384_SIG_SIZE
        &&& self.vnd_manifest_lms_sig.len() == LMS_SIG_SIZE
        &&& self.owner_manifest_ecc_pubk.len() == ECC384_PUBK_SIZE
        &&& self.owner_manifest_lms_pubk.len() == LMS_PUBK_SIZE
        &&& self.owner_manifest_ecc_sig.len() == ECC384_SIG_SIZE
        &&& self.owner_manifest_lms_sig.len() == LMS_SIG_SIZE
        &&& self.owner_manifest_svn_ecc_sig.len() == ECC384_SIG_SIZE
        &&& self.owner_manifest_svn_lms_sig.len() == LMS_SIG_SIZE
        &&& self.vnd_metadata_ecc_sig.len() == ECC384_SIG_SIZE
        &&& self.vnd_metadata_lms_sig.len() == LMS_SIG_SIZE
        &&& self.owner_metadata_ecc_sig.len() == ECC384_SIG_SIZE
        &&& self.owner_metadata_lms_sig.len() == LMS_SIG_SIZE
    }

    /// The exact byte representation of the preamble, fields concatenated in
    /// record order with no padding.
    pub open spec fn bytes(self) -> Seq<u8> {
        spec_u32_to_le_bytes(self.magic) + spec_u32_to_le_bytes(self.size)
            + spec_u32_to_le_bytes(self.version) + spec_u32_to_le_bytes(self.security_version)
            + spec_u32_to_le_bytes(self.flags) + self.vnd_manifest_ecc_pubk
            + self.vnd_manifest_lms_pubk + self.vnd_manifest_ecc_sig + self.vnd_manifest_lms_sig
            + self.owner_manifest_ecc_pubk + self.owner_manifest_lms_pubk
            + self.owner_manifest_ecc_sig + self.owner_manifest_lms_sig
            + self.owner_manifest_svn_ecc_sig + self.owner_manifest_svn_lms_sig
            + self.vnd_metadata_ecc_sig + self.vnd_metadata_lms_sig + self.owner_metadata_ecc_sig
            + self.owner_metadata_lms_sig
    }
}

/// The preamble denoted by a byte buffer of exactly `PREAMBLE_SIZE` bytes.
pub open spec fn decode_preamble_spec(b: Seq<u8>) -> PreambleModel
    recommends
        b.len() == PREAMBLE_SIZE,
{
    PreambleModel {
        magic: spec_u32_from_le_bytes(b.subrange(0, 4)),
        size: spec_u32_from_le_bytes(b.subrange(4, 8)),
        version: spec_u32_from_le_bytes(b.subrange(8, 12)),
        security_version: spec_u32_from_le_bytes(b.subrange(12, 16)),
        flags: spec_u32_from_le_bytes(b.subrange(16, 20)),
        vnd_manifest_ecc_pubk: b.subrange(20, 116),
        vnd_manifest_lms_pubk: b.subrange(116, 164),
        vnd_manifest_ecc_sig: b.subrange(164, 260),
        vnd_manifest_lms_sig: b.subrange(260, 1880),
        owner_manifest_ecc_pubk: b.subrange(1880, 1976),
        owner_manifest_lms_pubk: b.subrange(1976, 2024),
        owner_manifest_ecc_sig: b.subrange(2024, 2120),
        owner_manifest_lms_sig: b.subrange(2120, 3740),
        owner_manifest_svn_ecc_sig: b.subrange(3740, 3836),
        owner_manifest_svn_lms_sig: b.subrange(3836, 5456),
        vnd_metadata_ecc_sig: b.subrange(5456, 5552),
        vnd_metadata_lms_sig: b.subrange(5552, 7172),
        owner_metadata_ecc_sig: b.subrange(7172, 7268),
        owner_metadata_lms_sig: b.subrange(7268, 8888),
    }
}

/// Decoding a full-size buffer yields a well-formed preamble whose encoding
/// is the buffer itself: the codec loses nothing.
pub proof fn lemma_preamble_roundtrip(b: Seq<u8>)
    requires
        b.len() == PREAMBLE_SIZE,
    ensures
        decode_preamble_spec(b).wf(),
        decode_preamble_spec(b).bytes() == b,
{
    lemma_auto_spec_u32_to_from_le_bytes();
    let p = decode_preamble_spec(b);
    assert(spec_u32_to_le_bytes(p.magic) == b.subrange(0, 4));
    assert(spec_u32_to_le_bytes(p.size) == b.subrange(4, 8));
    assert(spec_u32_to_le_bytes(p.version) == b.subrange(8, 12));
    assert(spec_u32_to_le_bytes(p.security_version) == b.subrange(12, 16));
    assert(spec_u32_to_le_bytes(p.flags) == b.subrange(16, 20));
    assert(p.bytes() =~= b);
}

/// Reads the preamble record from the front of `buffer`.
pub fn decode_preamble(buffer: &Vec<u8>) -> (r: Result<ManifestPreamble, ManifestError>)
    ensures
        buffer@.len() >= PREAMBLE_SIZE ==> (r matches Ok(p) && p@ == decode_preamble_spec(
            buffer@.subrange(0, PREAMBLE_SIZE as int),
        ) && p@.wf()),
        buffer@.len() < PREAMBLE_SIZE ==> r == Err::<ManifestPreamble, ManifestError>(
            ManifestError::TruncatedInput,
        ),
{
    if buffer.len() < PREAMBLE_SIZE {
        return Err(ManifestError::TruncatedInput);
    }
    let s = buffer.as_slice();
    let p = ManifestPreamble {
        magic: u32_from_le_bytes(slice_subrange(s, 0, 4)),
        size: u32_from_le_bytes(slice_subrange(s, 4, 8)),
        version: u32_from_le_bytes(slice_subrange(s, 8, 12)),
        security_version: u32_from_le_bytes(slice_subrange(s, 12, 16)),
        flags: u32_from_le_bytes(slice_subrange(s, 16, 20)),
        vnd_manifest_ecc_pubk: slice_to_vec(slice_subrange(s, 20, 116)),
        vnd_manifest_lms_pubk: slice_to_vec(slice_subrange(s, 116, 164)),
        vnd_manifest_ecc_sig: slice_to_vec(slice_subrange(s, 164, 260)),
        vnd_manifest_lms_sig: slice_to_vec(slice_subrange(s, 260, 1880)),
        owner_manifest_ecc_pubk: slice_to_vec(slice_subrange(s, 1880, 1976)),
        owner_manifest_lms_pubk: slice_to_vec(slice_subrange(s, 1976, 2024)),
        owner_manifest_ecc_sig: slice_to_vec(slice_subrange(s, 2024, 2120)),
        owner_manifest_lms_sig: slice_to_vec(slice_subrange(s, 2120, 3740)),
        owner_manifest_svn_ecc_sig: slice_to_vec(slice_subrange(s, 3740, 3836)),
        owner_manifest_svn_lms_sig: slice_to_vec(slice_subrange(s, 3836, 5456)),
        vnd_metadata_ecc_sig: slice_to_vec(slice_subrange(s, 5456, 5552)),
        vnd_metadata_lms_sig: slice_to_vec(slice_subrange(s, 5552, 7172)),
        owner_metadata_ecc_sig: slice_to_vec(slice_subrange(s, 7172, 7268)),
        owner_metadata_lms_sig: slice_to_vec(slice_subrange(s, 7268, 8888)),
    };
    proof {
        let w = buffer@.subrange(0, PREAMBLE_SIZE as int);
        assert(w.subrange(0, 4) =~= buffer@.subrange(0, 4));
        assert(w.subrange(4, 8) =~= buffer@.subrange(4, 8));
        assert(w.subrange(8, 12) =~= buffer@.subrange(8, 12));
        assert(w.subrange(12, 16) =~= buffer@.subrange(12, 16));
        assert(w.subrange(16, 20) =~= buffer@.subrange(16, 20));
        assert(w.subrange(20, 116) =~= buffer@.subrange(20, 116));
        assert(w.subrange(116, 164) =~= buffer@.subrange(116, 164));
        assert(w.subrange(164, 260) =~= buffer@.subrange(164, 260));
        assert(w.subrange(260, 1880) =~= buffer@.subrange(260, 1880));
        assert(w.subrange(1880, 1976) =~= buffer@.subrange(1880, 1976));
        assert(w.subrange(1976, 2024) =~= buffer@.subrange(1976, 2024));
        assert(w.subrange(2024, 2120) =~= buffer@.subrange(2024, 2120));
        assert(w.subrange(2120, 3740) =~= buffer@.subrange(2120, 3740));
        assert(w.subrange(3740, 3836) =~= buffer@.subrange(3740, 3836));
        assert(w.subrange(3836, 5456) =~= buffer@.subrange(3836, 5456));
        assert(w.subrange(5456, 5552) =~= buffer@.subrange(5456, 5552));
        assert(w.subrange(5552, 7172) =~= buffer@.subrange(5552, 7172));
        assert(w.subrange(7172, 7268) =~= buffer@.subrange(7172, 7268));
        assert(w.subrange(7268, 8888) =~= buffer@.subrange(7268, 8888));
        assert(p@ =~= decode_preamble_spec(w));
        lemma_preamble_roundtrip(w);
    }
    Ok(p)
}

/// Appends the exact byte representation of `p` to `out`.
pub fn encode_preamble(p: &ManifestPreamble, out: &mut Vec<u8>)
    requires
        p@.wf(),
    ensures
        final(out)@ == old(out)@ + p@.bytes(),
{
    let ghost base = out@;
    let mut word = u32_to_le_bytes(p.magic);
    out.append(&mut word);
    let mut word = u32_to_le_bytes(p.size);
    out.append(&mut word);
    let mut word = u32_to_le_bytes(p.version);
    out.append(&mut word);
    let mut word = u32_to_le_bytes(p.security_version);
    out.append(&mut word);
    let mut word = u32_to_le_bytes(p.flags);
    out.append(&mut word);
    out.extend_from_slice(p.vnd_manifest_ecc_pubk.as_slice());
    out.extend_from_slice(p.vnd_manifest_lms_pubk.as_slice());
    out.extend_from_slice(p.vnd_manifest_ecc_sig.as_slice());
    out.extend_from_slice(p.vnd_manifest_lms_sig.as_slice());
    out.extend_from_slice(p.owner_manifest_ecc_pubk.as_slice());
    out.extend_from_slice(p.owner_manifest_lms_pubk.as_slice());
    out.extend_from_slice(p.owner_manifest_ecc_sig.as_slice());
    out.extend_from_slice(p.owner_manifest_lms_sig.as_slice());
    out.extend_from_slice(p.owner_manifest_svn_ecc_sig.as_slice());
    out.extend_from_slice(p.owner_manifest_svn_lms_sig.as_slice());
    out.extend_from_slice(p.vnd_metadata_ecc_sig.as_slice());
    out.extend_from_slice(p.vnd_metadata_lms_sig.as_slice());
    out.extend_from_slice(p.owner_metadata_ecc_sig.as_slice());
    out.extend_from_slice(p.owner_metadata_lms_sig.as_slice());
    assert(out@ =~= base + p@.bytes());
}

/// An encoded preamble occupies exactly `PREAMBLE_SIZE` bytes.
pub proof fn lemma_preamble_bytes_len(p: PreambleModel)
    requires
        p.wf(),
    ensures
        p.bytes().len() == PREAMBLE_SIZE,
{
    lemma_auto_spec_u32_to_from_le_bytes();
}

/// One record of the image-metadata collection: a firmware image's id, its
/// flags, and the SHA-384 digest of its (alignment-padded) contents.
#[derive(Debug)]
pub struct ImageMetadataEntry {
    pub id: u32,
    pub flags: u32,
    pub digest: Vec<u8>,
}

/// Mathematical model of a metadata entry.
#[verifier::ext_equal]
pub struct EntryModel {
    pub id: u32,
    pub flags: u32,
    pub digest: Seq<u8>,
}

impl View for ImageMetadataEntry {
    type V = EntryModel;

    open spec fn view(&self) -> EntryModel {
        EntryModel { id: self.id, flags: self.flags, digest: self.digest@ }
    }
}

impl DeepView for ImageMetadataEntry {
    type V = EntryModel;

    open spec fn deep_view(&self) -> EntryModel {
        self@
    }
}

impl EntryModel {
    /// The digest slot has its fixed size.
    pub open spec fn wf(self) -> bool {
        self.digest.len() == SHA384_DIGEST_SIZE
    }

    /// The exact byte representation of the entry.
    pub open spec fn bytes(self) -> Seq<u8> {
        spec_u32_to_le_bytes(self.id) + spec_u32_to_le_bytes(self.flags) + self.digest
    }
}

/// The metadata entry denoted by a byte buffer of exactly
/// `METADATA_ENTRY_SIZE` bytes.
pub open spec fn decode_entry_spec(b: Seq<u8>) -> EntryModel
    recommends
        b.len() == METADATA_ENTRY_SIZE,
{
    EntryModel {
        id: spec_u32_from_le_bytes(b.subrange(0, 4)),
        flags: spec_u32_from_le_bytes(b.subrange(4, 8)),
        digest: b.subrange(8, 56),
    }
}

/// Decoding a full-size entry buffer yields a well-formed entry whose
/// encoding is the buffer itself.
pub proof fn lemma_entry_roundtrip(b: Seq<u8>)
    requires
        b.len() == METADATA_ENTRY_SIZE,
    ensures
        decode_entry_spec(b).wf(),
        decode_entry_spec(b).bytes() == b,
{
    lemma_auto_spec_u32_to_from_le_bytes();
    let e = decode_entry_spec(b);
    assert(spec_u32_to_le_bytes(e.id) == b.subrange(0, 4));
    assert(spec_u32_to_le_bytes(e.flags) == b.subrange(4, 8));
    assert(e.bytes() =~= b);
}

/// The byte representation of a sequence of entries, concatenated in order.
pub open spec fn entries_bytes(s: Seq<EntryModel>) -> Seq<u8>
    decreases s.len(),
{
    if s.len() == 0 {
        Seq::empty()
    } else {
        entries_bytes(s.drop_last()) + s.last().bytes()
    }
}

/// Appending one entry appends its bytes.
pub proof fn lemma_entries_bytes_push(s: Seq<EntryModel>, e: EntryModel)
    ensures
        entries_bytes(s.push(e)) == entries_bytes(s) + e.bytes(),
{
    assert(s.push(e).drop_last() =~= s);
    assert(s.push(e).last() == e);
}

/// Well-formed entries encode to `METADATA_ENTRY_SIZE` bytes each.
pub proof fn lemma_entries_bytes_len(s: Seq<EntryModel>)
    requires
        forall|i: int| 0 <= i < s.len() ==> (#[trigger] s[i]).wf(),
    ensures
        entries_bytes(s).len() == METADATA_ENTRY_SIZE * s.len(),
    decreases s.len(),
{
    lemma_auto_spec_u32_to_from_le_bytes();
    if s.len() > 0 {
        lemma_entries_bytes_len(s.drop_last());
    }
}

/// Fixed-capacity collection of image-metadata entries. The buffer always
/// carries the full fixed array; entries beyond `count` are semantically
/// unused padding, preserved verbatim by the codec. The codec itself does not
/// constrain `count`; the checked constructor `new` does.
#[derive(Debug)]
pub struct ImageMetadataCollection {
    pub count: u32,
    pub metadata_list: Vec<ImageMetadataEntry>,
}

/// Mathematical model of the collection.
#[verifier::ext_equal]
pub struct CollectionModel {
    pub count: u32,
    pub metadata_list: Seq<EntryModel>,
}

impl View for ImageMetadataCollection {
    type V = CollectionModel;

    open spec fn view(&self) -> CollectionModel {
        CollectionModel { count: self.count, metadata_list: self.metadata_list.deep_view() }
    }
}

impl CollectionModel {
    /// The entry array has exactly its fixed capacity and every entry is
    /// well-formed.
    pub open spec fn wf(self) -> bool {
        &&& self.metadata_list.len() == IMAGE_METADATA_MAX_COUNT
        &&& forall|i: int|
            0 <= i < self.metadata_list.len() ==> (#[trigger] self.metadata_list[i]).wf()
    }

    /// The exact byte representation of the collection.
    pub open spec fn bytes(self) -> Seq<u8> {
        spec_u32_to_le_bytes(self.count) + entries_bytes(self.metadata_list)
    }
}

/// The collection denoted by a byte buffer of exactly
/// `METADATA_COLLECTION_SIZE` bytes.
pub open spec fn decode_collection_spec(b: Seq<u8>) -> CollectionModel
    recommends
        b.len() == METADATA_COLLECTION_SIZE,
{
    CollectionModel {
        count: spec_u32_from_le_bytes(b.subrange(0, 4)),
        metadata_list: Seq::new(
            IMAGE_METADATA_MAX_COUNT as nat,
            |i: int| decode_entry_spec(b.subrange(4 + 56 * i, 60 + 56 * i)),
        ),
    }
}

proof fn lemma_decoded_entries_prefix(b: Seq<u8>, n: int)
    requires
        b.len() == METADATA_COLLECTION_SIZE,
        0 <= n <= IMAGE_METADATA_MAX_COUNT,
    ensures
        entries_bytes(decode_collection_spec(b).metadata_list.take(n)) == b.subrange(4, 4 + 56 * n),
    decreases n,
{
    let entries = decode_collection_spec(b).metadata_list;
    if n == 0 {
        assert(entries_bytes(entries.take(0)) =~= b.subrange(4, 4));
    } else {
        lemma_decoded_entries_prefix(b, n - 1);
        assert(entries.take(n).drop_last() =~= entries.take(n - 1));
        lemma_entry_roundtrip(b.subrange(4 + 56 * (n - 1), 60 + 56 * (n - 1)));
        assert(entries_bytes(entries.take(n)) == b.subrange(4, 4 + 56 * (n - 1)) + b.subrange(
            4 + 56 * (n - 1),
            4 + 56 * n,
        ));
        assert(b.subrange(4, 4 + 56 * (n - 1)) + b.subrange(4 + 56 * (n - 1), 4 + 56 * n) =~= b
            .subrange(4, 4 + 56 * n));
    }
}

/// Decoding a full-size buffer yields a well-formed collection whose encoding
/// is the buffer itself.
pub proof fn lemma_collection_roundtrip(b: Seq<u8>)
    requires
        b.len() == METADATA_COLLECTION_SIZE,
    ensures
        decode_collection_spec(b).wf(),
        decode_collection_spec(b).bytes() == b,
{
    lemma_auto_spec_u32_to_from_le_bytes();
    let c = decode_collection_spec(b);
    assert forall|i: int| 0 <= i < c.metadata_list.len() implies (
    #[trigger] c.metadata_list[i]).wf() by {
        lemma_entry_roundtrip(b.subrange(4 + 56 * i, 60 + 56 * i));
    }
    lemma_decoded_entries_prefix(b, IMAGE_METADATA_MAX_COUNT as int);
    assert(c.metadata_list.take(IMAGE_METADATA_MAX_COUNT as int) =~= c.metadata_list);
    assert(spec_u32_to_le_bytes(c.count) == b.subrange(0, 4));
    assert(c.bytes() =~= b);
}

/// Reads the metadata-collection record from the front of `buffer`.
pub fn decode_collection(buffer: &Vec<u8>) -> (r: Result<
    ImageMetadataCollection,
    ManifestError,
>)
    ensures
        buffer@.len() >= METADATA_COLLECTION_SIZE ==> (r matches Ok(c) && c@
            == decode_collection_spec(buffer@.subrange(0, METADATA_COLLECTION_SIZE as int))
            && c@.wf()),
        buffer@.len() < METADATA_COLLECTION_SIZE ==> r == Err::<
            ImageMetadataCollection,
            ManifestError,
        >(ManifestError::TruncatedInput),
{
    if buffer.len() < METADATA_COLLECTION_SIZE {
        return Err(ManifestError::TruncatedInput);
    }
    let ghost w = buffer@.subrange(0, METADATA_COLLECTION_SIZE as int);
    let s = buffer.as_slice();
    let count = u32_from_le_bytes(slice_subrange(s, 0, 4));
    let mut metadata_list: Vec<ImageMetadataEntry> = Vec::new();
    let mut i: usize = 0;
    while i < IMAGE_METADATA_MAX_COUNT
        invariant
            buffer@.len() >= METADATA_COLLECTION_SIZE,
            w == buffer@.subrange(0, METADATA_COLLECTION_SIZE as int),
            s@ == buffer@,
            0 <= i <= IMAGE_METADATA_MAX_COUNT,
            metadata_list.deep_view().len() == i,
            forall|j: int|
                0 <= j < i ==> metadata_list.deep_view()[j] == decode_entry_spec(
                    w.subrange(4 + 56 * j, 60 + 56 * j),
                ),
        decreases IMAGE_METADATA_MAX_COUNT - i,
    {
        let off = 4 + i * 56;
        let e = ImageMetadataEntry {
            id: u32_from_le_bytes(slice_subrange(s, off, off + 4)),
            flags: u32_from_le_bytes(slice_subrange(s, off + 4, off + 8)),
            digest: slice_to_vec(slice_subrange(s, off + 8, off + 56)),
        };
        proof {
            let j = i as int;
            assert(w.subrange(4 + 56 * j, 60 + 56 * j).subrange(0, 4) =~= buffer@.subrange(
                4 + 56 * j,
                8 + 56 * j,
            ));
            assert(w.subrange(4 + 56 * j, 60 + 56 * j).subrange(4, 8) =~= buffer@.subrange(
                8 + 56 * j,
                12 + 56 * j,
            ));
            assert(w.subrange(4 + 56 * j, 60 + 56 * j).subrange(8, 56) =~= buffer@.subrange(
                12 + 56 * j,
                60 + 56 * j,
            ));
            assert(e@ =~= decode_entry_spec(w.subrange(4 + 56 * j, 60 + 56 * j)));
        }
        let ghost prev_list = metadata_list.deep_view();
        metadata_list.push(e);
        proof {
            assert(metadata_list.deep_view() =~= prev_list.push(e@));
        }
        i = i + 1;
    }
    let c = ImageMetadataCollection { count, metadata_list };
    proof {
        assert(w.subrange(0, 4) =~= buffer@.subrange(0, 4));
        assert(c@.metadata_list =~= decode_collection_spec(w).metadata_list);
        assert(c@ =~= decode_collection_spec(w));
        lemma_collection_roundtrip(w);
    }
    Ok(c)
}

/// Appends the exact byte representation of `c` to `out`.
pub fn encode_collection(c: &ImageMetadataCollection, out: &mut Vec<u8>)
    requires
        c@.wf(),
    ensures
        final(out)@ == old(out)@ + c@.bytes(),
{
    let ghost base = old(out)@;
    let mut word = u32_to_le_bytes(c.count);
    out.append(&mut word);
    let mut i: usize = 0;
    while i < c.metadata_list.len()
        invariant
            c@.wf(),
            c.metadata_list@.len() == IMAGE_METADATA_MAX_COUNT,
            0 <= i <= c.metadata_list@.len(),
            out@ == base + spec_u32_to_le_bytes(c.count) + entries_bytes(
                c@.metadata_list.take(i as int),
            ),
        decreases c.metadata_list@.len() - i,
    {
        let e = &c.metadata_list[i];
        proof {
            assert(c@.metadata_list[i as int].wf());
            assert(e@ == c@.metadata_list[i as int]);
        }
        let mut word = u32_to_le_bytes(e.id);
        out.append(&mut word);
        let mut word = u32_to_le_bytes(e.flags);
        out.append(&mut word);
        out.extend_from_slice(e.digest.as_slice());
        proof {
            lemma_entries_bytes_push(c@.metadata_list.take(i as int), e@);
            assert(c@.metadata_list.take(i as int).push(e@) =~= c@.metadata_list.take(
                i as int + 1,
            ));
            assert(out@ =~= base + spec_u32_to_le_bytes(c.count) + entries_bytes(
                c@.metadata_list.take(i as int + 1),
            ));
        }
        i = i + 1;
    }
    proof {
        assert(c@.metadata_list.take(c.metadata_list@.len() as int) =~= c@.metadata_list);
        assert(out@ =~= base + c@.bytes());
    }
}

/// An encoded collection occupies exactly `METADATA_COLLECTION_SIZE` bytes.
pub proof fn lemma_collection_bytes_len(c: CollectionModel)
    requires
        c.wf(),
    ensures
        c.bytes().len() == METADATA_COLLECTION_SIZE,
{
    lemma_auto_spec_u32_to_from_le_bytes();
    lemma_entries_bytes_len(c.metadata_list);
}

/// The model of an all-zero padding entry.
pub open spec fn zero_entry_model() -> EntryModel {
    EntryModel { id: 0, flags: 0, digest: Seq::new(SHA384_DIGEST_SIZE as nat, |i: int| 0u8) }
}

impl ImageMetadataCollection {
    /// Builds a collection from the entries that are actually in use, padding
    /// the fixed array with zero entries. A list longer than the fixed
    /// capacity is rejected rather than silently truncated.
    pub fn new(entries: Vec<ImageMetadataEntry>) -> (r: Result<
        ImageMetadataCollection,
        ManifestError,
    >)
        requires
            forall|i: int| 0 <= i < entries@.len() ==> (#[trigger] entries.deep_view()[i]).wf(),
        ensures
            r is Ok <==> entries@.len() <= IMAGE_METADATA_MAX_COUNT,
            entries@.len() > IMAGE_METADATA_MAX_COUNT ==> r == Err::<
                ImageMetadataCollection,
                ManifestError,
            >(ManifestError::ConfigError),
            r matches Ok(c) ==> {
                &&& c@.wf()
                &&& c@.count == entries@.len()
                &&& c@.metadata_list.take(entries@.len() as int) == entries.deep_view()
                &&& forall|j: int|
                    entries@.len() <= j < IMAGE_METADATA_MAX_COUNT ==> c@.metadata_list[j]
                        == zero_entry_model()
            },
    {
        if entries.len() > IMAGE_METADATA_MAX_COUNT {
            return Err(ManifestError::ConfigError);
        }
        let count = entries.len() as u32;
        let ghost used = entries.deep_view();
        let mut metadata_list = entries;
        while metadata_list.len() < IMAGE_METADATA_MAX_COUNT
        invariant
            used.len() <= metadata_list.deep_view().len() <= IMAGE_METADATA_MAX_COUNT,
            metadata_list.deep_view().take(used.len() as int) == used,
            forall|j: int|
                used.len() <= j < metadata_list.deep_view().len()
                    ==> metadata_list.deep_view()[j] == zero_entry_model(),
        decreases IMAGE_METADATA_MAX_COUNT - metadata_list.len(),
        {
            let ghost prev_list = metadata_list.deep_view();
            let pad = ImageMetadataEntry { id: 0, flags: 0, digest: vec![0u8; SHA384_DIGEST_SIZE] };
            proof {
                assert(pad@ =~= zero_entry_model());
            }
            metadata_list.push(pad);
            proof {
                assert(metadata_list.deep_view() =~= prev_list.push(pad@));
                assert(metadata_list.deep_view().take(used.len() as int) =~= prev_list.take(
                    used.len() as int,
                ));
            }
        }
        let c = ImageMetadataCollection { count, metadata_list };
        proof {
            assert(c@.metadata_list.take(used.len() as int) == used);
            assert forall|i: int| 0 <= i < c@.metadata_list.len() implies (
            #[trigger] c@.metadata_list[i]).wf() by {
                if i < used.len() {
                    assert(c@.metadata_list.take(used.len() as int)[i] == c@.metadata_list[i]);
                    assert(used[i].wf());
                }
            }
        }
        Ok(c)
    }
}

/// The exact byte representation of a whole manifest image: the preamble
/// immediately followed by the metadata collection, no gap.
pub open spec fn manifest_bytes(p: PreambleModel, c: CollectionModel) -> Seq<u8> {
    p.bytes() + c.bytes()
}

/// Round trip: decoding any buffer of the exact combined record size and
/// re-encoding it reproduces the buffer byte for byte.
pub proof fn lemma_manifest_roundtrip(b: Seq<u8>)
    requires
        b.len() == MANIFEST_IMAGE_SIZE,
    ensures
        manifest_bytes(
            decode_preamble_spec(b.subrange(0, PREAMBLE_SIZE as int)),
            decode_collection_spec(b.subrange(PREAMBLE_SIZE as int, MANIFEST_IMAGE_SIZE as int)),
        ) == b,
{
    lemma_preamble_roundtrip(b.subrange(0, PREAMBLE_SIZE as int));
    lemma_collection_roundtrip(b.subrange(PREAMBLE_SIZE as int, MANIFEST_IMAGE_SIZE as int));
    assert(b.subrange(0, PREAMBLE_SIZE as int) + b.subrange(
        PREAMBLE_SIZE as int,
        MANIFEST_IMAGE_SIZE as int,
    ) =~= b);
}

/// Decodes a whole manifest image: the preamble from offset 0 and the
/// metadata collection from the offset immediately following the preamble.
/// Bytes beyond the combined record size are ignored.
pub fn decode(buffer: &Vec<u8>) -> (r: Result<
    (ManifestPreamble, ImageMetadataCollection),
    ManifestError,
>)
    ensures
        r is Ok <==> buffer@.len() >= MANIFEST_IMAGE_SIZE,
        r matches Err(e) ==> e == ManifestError::TruncatedInput,
        r matches Ok(pc) ==> {
            &&& pc.0@ == decode_preamble_spec(buffer@.subrange(0, PREAMBLE_SIZE as int))
            &&& pc.1@ == decode_collection_spec(
                buffer@.subrange(PREAMBLE_SIZE as int, MANIFEST_IMAGE_SIZE as int),
            )
            &&& pc.0@.wf()
            &&& pc.1@.wf()
            &&& manifest_bytes(pc.0@, pc.1@) == buffer@.subrange(0, MANIFEST_IMAGE_SIZE as int)
        },
{
    if buffer.len() < MANIFEST_IMAGE_SIZE {
        return Err(ManifestError::TruncatedInput);
    }
    let preamble = match decode_preamble(buffer) {
        Ok(p) => p,
        Err(e) => {
            return Err(e);
        },
    };
    let col_bytes = slice_to_vec(
        slice_subrange(buffer.as_slice(), PREAMBLE_SIZE, MANIFEST_IMAGE_SIZE),
    );
    let collection = match decode_collection(&col_bytes) {
        Ok(c) => c,
        Err(e) => {
            return Err(e);
        },
    };
    proof {
        assert(col_bytes@.subrange(0, METADATA_COLLECTION_SIZE as int) =~= buffer@.subrange(
            PREAMBLE_SIZE as int,
            MANIFEST_IMAGE_SIZE as int,
        ));
        lemma_manifest_roundtrip(buffer@.subrange(0, MANIFEST_IMAGE_SIZE as int));
        assert(buffer@.subrange(0, MANIFEST_IMAGE_SIZE as int).subrange(0, PREAMBLE_SIZE as int)
            =~= buffer@.subrange(0, PREAMBLE_SIZE as int));
        assert(buffer@.subrange(0, MANIFEST_IMAGE_SIZE as int).subrange(
            PREAMBLE_SIZE as int,
            MANIFEST_IMAGE_SIZE as int,
        ) =~= buffer@.subrange(PREAMBLE_SIZE as int, MANIFEST_IMAGE_SIZE as int));
    }
    Ok((preamble, collection))
}

/// Encodes a whole manifest image, fully materializing the buffer.
pub fn encode(p: &ManifestPreamble, c: &ImageMetadataCollection) -> (r: Vec<u8>)
    requires
        p@.wf(),
        c@.wf(),
    ensures
        r@ == manifest_bytes(p@, c@),
        r@.len() == MANIFEST_IMAGE_SIZE,
{
    let mut out: Vec<u8> = Vec::new();
    encode_preamble(p, &mut out);
    encode_collection(c, &mut out);
    proof {
        lemma_preamble_bytes_len(p@);
        lemma_collection_bytes_len(c@);
        assert(out@ =~= manifest_bytes(p@, c@));
    }
    out
}

} // verus!
