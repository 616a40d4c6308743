//! The configuration data the overlay command works from, as plain values.
//!
//! The caller parses the configuration file and hands these records in; the
//! caller also reads image files and hands their contents in. Everything
//! here is pure bookkeeping: resolving per-image paths against the prebuilt
//! directory, deriving the intermediate manifest configuration with its
//! per-image digests, and picking the images that go into the flash image.

use vstd::prelude::*;

use crate::digest::{digest_hex, hex_of, pad_spec, sha384_of};
use crate::pathutil::join_path;
use crate::pathutil::join_path_spec;

verus! {

/// Key-file locations for one signing role.
pub struct AuthManifestKeyConfigFromFile {
    pub ecc_pub_key: Option<String>,
    pub ecc_priv_key: Option<String>,
    pub lms_pub_key: Option<String>,
    pub lms_priv_key: Option<String>,
}

/// Model of a key configuration.
#[verifier::ext_equal]
pub struct KeyCfgModel {
    pub ecc_pub_key: Option<Seq<char>>,
    pub ecc_priv_key: Option<Seq<char>>,
    pub lms_pub_key: Option<Seq<char>>,
    pub lms_priv_key: Option<Seq<char>>,
}

/// The character sequence behind an optional string field.
pub open spec fn opt_view(o: Option<String>) -> Option<Seq<char>> {
    match o {
        Some(s) => Some(s@),
        None => None,
    }
}

impl View for AuthManifestKeyConfigFromFile {
    type V = KeyCfgModel;

    open spec fn view(&self) -> KeyCfgModel {
        KeyCfgModel {
            ecc_pub_key: opt_view(self.ecc_pub_key),
            ecc_priv_key: opt_view(self.ecc_priv_key),
            lms_pub_key: opt_view(self.lms_pub_key),
            lms_priv_key: opt_view(self.lms_priv_key),
        }
    }
}

/// Copies an optional string field.
fn clone_opt_string(o: &Option<String>) -> (r: Option<String>)
    ensures
        opt_view(r) == opt_view(*o),
{
    match o {
        Some(s) => Some(s.clone()),
        None => None,
    }
}

impl AuthManifestKeyConfigFromFile {
    /// Copies a key configuration field for field.
    pub fn duplicate(&self) -> (r: AuthManifestKeyConfigFromFile)
        ensures
            r@ == self@,
    {
        let r = AuthManifestKeyConfigFromFile {
            ecc_pub_key: clone_opt_string(&self.ecc_pub_key),
            ecc_priv_key: clone_opt_string(&self.ecc_priv_key),
            lms_pub_key: clone_opt_string(&self.lms_pub_key),
            lms_priv_key: clone_opt_string(&self.lms_priv_key),
        };
        proof {
            assert(r@ =~= self@);
        }
        r
    }
}

/// One image's metadata in the intermediate manifest configuration: the
/// digest already computed and hex-encoded.
pub struct ImageMetadataConfigFromFile {
    pub digest: String,
    pub source: u32,
    pub fw_id: u32,
    pub ignore_auth_check: bool,
    pub load_stage: u32,
}

/// Model of an intermediate metadata entry.
#[verifier::ext_equal]
pub struct ImageMetadataCfgModel {
    pub digest: Seq<char>,
    pub source: u32,
    pub fw_id: u32,
    pub ignore_auth_check: bool,
    pub load_stage: u32,
}

impl View for ImageMetadataConfigFromFile {
    type V = ImageMetadataCfgModel;

    open spec fn view(&self) -> ImageMetadataCfgModel {
        ImageMetadataCfgModel {
            digest: self.digest@,
            source: self.source,
            fw_id: self.fw_id,
            ignore_auth_check: self.ignore_auth_check,
            load_stage: self.load_stage,
        }
    }
}

impl DeepView for ImageMetadataConfigFromFile {
    type V = ImageMetadataCfgModel;

    open spec fn deep_view(&self) -> ImageMetadataCfgModel {
        self@
    }
}

/// The intermediate manifest configuration handed to the upstream manifest
/// builder.
pub struct AuthManifestConfigFromFile {
    pub vendor_fw_key_config: AuthManifestKeyConfigFromFile,
    pub vendor_man_key_config: AuthManifestKeyConfigFromFile,
    pub owner_fw_key_config: Option<AuthManifestKeyConfigFromFile>,
    pub owner_man_key_config: Option<AuthManifestKeyConfigFromFile>,
    pub image_metadata_list: Vec<ImageMetadataConfigFromFile>,
}

/// The optional key configuration's model.
pub open spec fn opt_key_view(o: &Option<AuthManifestKeyConfigFromFile>) -> Option<KeyCfgModel> {
    match o {
        Some(k) => Some(k@),
        None => None,
    }
}

/// Copies an optional key configuration.
fn clone_opt_key(o: &Option<AuthManifestKeyConfigFromFile>) -> (r: Option<
    AuthManifestKeyConfigFromFile,
>)
    ensures
        opt_key_view(&r) == opt_key_view(o),
{
    match o {
        Some(k) => Some(k.duplicate()),
        None => None,
    }
}

/// Locations of the upstream tool checkouts the command shells out to.
pub struct AspeedManifestToolDependencies {
    pub caliptra_sw_auth: String,
    pub caliptra_mcu_sw: String,
}

/// The version words and the security version the manifest carries, and the
/// prebuilt vendor signature files to overlay (empty when not configured).
pub struct AspeedAuthManifestGeneralConfigFromFile {
    pub version: u32,
    pub flags: u32,
    pub security_version: u32,
    pub vnd_ecc_sig: String,
    pub vnd_lms_sig: String,
}

/// The runtime firmware images baked into the flash image.
pub struct AspeedImageRuntimeConfigFromFile {
    pub caliptra_file: String,
    pub mcu_file: String,
}

/// One image's entry in the source configuration: a file name, not yet a
/// digest.
pub struct AspeedImageMetadataConfigFromFile {
    pub file: String,
    pub source: u32,
    pub fw_id: u32,
    pub ignore_auth_check: bool,
    pub load_stage: u32,
}

/// Model of a source metadata entry.
#[verifier::ext_equal]
pub struct AspeedImageMetadataCfgModel {
    pub file: Seq<char>,
    pub source: u32,
    pub fw_id: u32,
    pub ignore_auth_check: bool,
    pub load_stage: u32,
}

impl View for AspeedImageMetadataConfigFromFile {
    type V = AspeedImageMetadataCfgModel;

    open spec fn view(&self) -> AspeedImageMetadataCfgModel {
        AspeedImageMetadataCfgModel {
            file: self.file@,
            source: self.source,
            fw_id: self.fw_id,
            ignore_auth_check: self.ignore_auth_check,
            load_stage: self.load_stage,
        }
    }
}

impl DeepView for AspeedImageMetadataConfigFromFile {
    type V = AspeedImageMetadataCfgModel;

    open spec fn deep_view(&self) -> AspeedImageMetadataCfgModel {
        self@
    }
}

/// The whole source configuration for the overlay command.
pub struct AspeedAuthManifestConfigFromFile {
    pub manifest_config: AspeedAuthManifestGeneralConfigFromFile,
    pub authtool: AspeedManifestToolDependencies,
    pub vendor_fw_key_config: AuthManifestKeyConfigFromFile,
    pub vendor_man_key_config: AuthManifestKeyConfigFromFile,
    pub owner_fw_key_config: Option<AuthManifestKeyConfigFromFile>,
    pub owner_man_key_config: Option<AuthManifestKeyConfigFromFile>,
    pub image_runtime_list: AspeedImageRuntimeConfigFromFile,
    pub image_metadata_list: Vec<AspeedImageMetadataConfigFromFile>,
}

/// Where an image file is found: under the prebuilt directory when the
/// configuration names one, else at the placeholder path the caller chose
/// for an absent image.
pub open spec fn resolve_image_file(
    file: Seq<char>,
    prebuilt_dir: Seq<char>,
    dummy_path: Seq<char>,
) -> Seq<char> {
    if file.len() == 0 {
        dummy_path
    } else {
        join_path_spec(prebuilt_dir, file)
    }
}

/// Resolves one configured file name.
fn resolve_one_file(file: &String, prebuilt_dir: &String, dummy_path: &String) -> (r: String)
    ensures
        r@ == resolve_image_file(file@, prebuilt_dir@, dummy_path@),
{
    if file.unicode_len() == 0 {
        dummy_path.clone()
    } else {
        join_path(prebuilt_dir.as_str(), file.as_str())
    }
}

impl AspeedAuthManifestConfigFromFile {
    /// Rewrites every configured image file name to the path it is actually
    /// found at: under the prebuilt directory, or the placeholder path when
    /// the configuration leaves the name empty. Whether each resolved path
    /// exists is for the caller to check afterwards.
    pub fn find_prebuilt_img_path(&mut self, prebuilt_dir: &String, dummy_path: &String)
        ensures
            final(self).image_metadata_list.deep_view().len()
                == old(self).image_metadata_list.deep_view().len(),
            forall|i: int|
                0 <= i < old(self).image_metadata_list.deep_view().len()
                    ==> final(self).image_metadata_list.deep_view()[i]
                    == (AspeedImageMetadataCfgModel {
                    file: resolve_image_file(
                        old(self).image_metadata_list.deep_view()[i].file,
                        prebuilt_dir@,
                        dummy_path@,
                    ),
                    ..old(self).image_metadata_list.deep_view()[i]
                }),
            final(self).image_runtime_list.caliptra_file@ == resolve_image_file(
                old(self).image_runtime_list.caliptra_file@,
                prebuilt_dir@,
                dummy_path@,
            ),
            final(self).image_runtime_list.mcu_file@ == resolve_image_file(
                old(self).image_runtime_list.mcu_file@,
                prebuilt_dir@,
                dummy_path@,
            ),
            final(self).manifest_config == old(self).manifest_config,
            final(self).authtool == old(self).authtool,
            final(self).vendor_fw_key_config == old(self).vendor_fw_key_config,
            final(self).vendor_man_key_config == old(self).vendor_man_key_config,
            final(self).owner_fw_key_config == old(self).owner_fw_key_config,
            final(self).owner_man_key_config == old(self).owner_man_key_config,
    {
        let ghost orig = self.image_metadata_list.deep_view();
        let mut resolved: Vec<AspeedImageMetadataConfigFromFile> = Vec::new();
        let mut i: usize = 0;
        while i < self.image_metadata_list.len()
            invariant
                0 <= i <= self.image_metadata_list@.len(),
                orig == self.image_metadata_list.deep_view(),
                resolved.deep_view().len() == i,
                forall|j: int|
                    0 <= j < i ==> resolved.deep_view()[j] == (AspeedImageMetadataCfgModel {
                        file: resolve_image_file(orig[j].file, prebuilt_dir@, dummy_path@),
                        ..orig[j]
                    }),
            decreases self.image_metadata_list@.len() - i,
        {
            let e = &self.image_metadata_list[i];
            let new_entry = AspeedImageMetadataConfigFromFile {
                file: resolve_one_file(&e.file, prebuilt_dir, dummy_path),
                source: e.source,
                fw_id: e.fw_id,
                ignore_auth_check: e.ignore_auth_check,
                load_stage: e.load_stage,
            };
            let ghost prev = resolved.deep_view();
            resolved.push(new_entry);
            proof {
                assert(resolved.deep_view() =~= prev.push(new_entry@));
            }
            i = i + 1;
        }
        self.image_metadata_list = resolved;
        self.image_runtime_list.caliptra_file = resolve_one_file(
            &self.image_runtime_list.caliptra_file,
            prebuilt_dir,
            dummy_path,
        );
        self.image_runtime_list.mcu_file = resolve_one_file(
            &self.image_runtime_list.mcu_file,
            prebuilt_dir,
            dummy_path,
        );
    }

    /// Derives the intermediate manifest configuration: the key
    /// configurations copied verbatim, and one digest entry per image,
    /// hashing the contents the caller read from each resolved image file.
    pub fn build_caliptra_cfg(&self, image_contents: &Vec<Vec<u8>>) -> (r:
        AuthManifestConfigFromFile)
        requires
            image_contents@.len() == self.image_metadata_list@.len(),
        ensures
            r.vendor_fw_key_config@ == self.vendor_fw_key_config@,
            r.vendor_man_key_config@ == self.vendor_man_key_config@,
            opt_key_view(&r.owner_fw_key_config) == opt_key_view(&self.owner_fw_key_config),
            opt_key_view(&r.owner_man_key_config) == opt_key_view(&self.owner_man_key_config),
            r.image_metadata_list.deep_view().len() == self.image_metadata_list.deep_view().len(),
            forall|i: int|
                0 <= i < self.image_metadata_list.deep_view().len()
                    ==> r.image_metadata_list.deep_view()[i] == (ImageMetadataCfgModel {
                    digest: hex_of(
                        sha384_of(pad_spec(image_contents@[i]@, 0, 4)),
                    ),
                    source: self.image_metadata_list.deep_view()[i].source,
                    fw_id: self.image_metadata_list.deep_view()[i].fw_id,
                    ignore_auth_check: self.image_metadata_list.deep_view()[i].ignore_auth_check,
                    load_stage: self.image_metadata_list.deep_view()[i].load_stage,
                }),
    {
        let mut entries: Vec<ImageMetadataConfigFromFile> = Vec::new();
        let mut i: usize = 0;
        while i < self.image_metadata_list.len()
            invariant
                0 <= i <= self.image_metadata_list@.len(),
                image_contents@.len() == self.image_metadata_list@.len(),
                entries.deep_view().len() == i,
                forall|j: int|
                    0 <= j < i ==> entries.deep_view()[j] == (ImageMetadataCfgModel {
                        digest: hex_of(
                            sha384_of(pad_spec(image_contents@[j]@, 0, 4)),
                        ),
                        source: self.image_metadata_list.deep_view()[j].source,
                        fw_id: self.image_metadata_list.deep_view()[j].fw_id,
                        ignore_auth_check:
                            self.image_metadata_list.deep_view()[j].ignore_auth_check,
                        load_stage: self.image_metadata_list.deep_view()[j].load_stage,
                    }),
            decreases self.image_metadata_list@.len() - i,
        {
            let e = &self.image_metadata_list[i];
            let entry = ImageMetadataConfigFromFile {
                digest: digest_hex(&image_contents[i]),
                source: e.source,
                fw_id: e.fw_id,
                ignore_auth_check: e.ignore_auth_check,
                load_stage: e.load_stage,
            };
            let ghost prev = entries.deep_view();
            entries.push(entry);
            proof {
                assert(entries.deep_view() =~= prev.push(entry@));
            }
            i = i + 1;
        }
        AuthManifestConfigFromFile {
            vendor_fw_key_config: self.vendor_fw_key_config.duplicate(),
            vendor_man_key_config: self.vendor_man_key_config.duplicate(),
            owner_fw_key_config: clone_opt_key(&self.owner_fw_key_config),
            owner_man_key_config: clone_opt_key(&self.owner_man_key_config),
            image_metadata_list: entries,
        }
    }
}

/// The firmware id of the runtime image that belongs in the manifest but
/// not in the flash image's image list.
pub const MCU_RUN_TIME_FW_ID: u32 = 1;

/// The image files that go into the flash image: every configured image
/// except the runtime firmware, in configuration order.
pub open spec fn soc_image_files(s: Seq<AspeedImageMetadataCfgModel>) -> Seq<Seq<char>>
    decreases s.len(),
{
    if s.len() == 0 {
        Seq::empty()
    } else if s.last().fw_id != MCU_RUN_TIME_FW_ID {
        soc_image_files(s.drop_last()).push(s.last().file)
    } else {
        soc_image_files(s.drop_last())
    }
}

/// Picks the image files handed to the flash-image builder.
pub fn select_soc_images(list: &Vec<AspeedImageMetadataConfigFromFile>) -> (r: Vec<String>)
    ensures
        r.deep_view() == soc_image_files(list.deep_view()),
{
    let mut r: Vec<String> = Vec::new();
    let mut i: usize = 0;
    while i < list.len()
        invariant
            0 <= i <= list@.len(),
            r.deep_view() == soc_image_files(list.deep_view().take(i as int)),
        decreases list@.len() - i,
    {
        let e = &list[i];
        let ghost prev = r.deep_view();
        if e.fw_id != MCU_RUN_TIME_FW_ID {
            r.push(e.file.clone());
            proof {
                assert(r.deep_view() =~= prev.push(e.file@));
            }
        }
        proof {
            assert(list.deep_view().take(i as int + 1).drop_last() =~= list.deep_view().take(
                i as int,
            ));
            assert(list.deep_view().take(i as int + 1).last() == list.deep_view()[i as int]);
        }
        i = i + 1;
    }
    proof {
        assert(list.deep_view().take(list@.len() as int) =~= list.deep_view());
    }
    r
}

} // verus!
