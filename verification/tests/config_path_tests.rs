use cptra_imgtool::configmodel::{
    AspeedAuthManifestConfigFromFile, AspeedAuthManifestGeneralConfigFromFile,
    AspeedImageMetadataConfigFromFile, AspeedImageRuntimeConfigFromFile,
    AspeedManifestToolDependencies, AuthManifestKeyConfigFromFile, select_soc_images,
};
use cptra_imgtool::pathutil::{
    check_path_exists, get_aspeed_cfg_path, get_caliptra_cfg_path, get_flash_image_path,
    get_key_dir_path, get_manifest_path, get_out_folder_path, get_prebuilt_dir_path,
    get_project_name, get_svn_sig_path, join_path, parent_of, select_tool_dir, PathBufExt,
};
use cptra_imgtool::signer::{
    key_path_for, parse_algorithm, parse_digest_line, parse_key_role, trim_line, KeyRole,
    SignatureAlgorithm,
};
use cptra_imgtool::ManifestError;
use sha2::Digest;

fn img(file: &str, source: u32, fw_id: u32) -> AspeedImageMetadataConfigFromFile {
    AspeedImageMetadataConfigFromFile {
        file: file.to_string(),
        source,
        fw_id,
        ignore_auth_check: false,
        load_stage: 1,
    }
}

fn empty_keys() -> AuthManifestKeyConfigFromFile {
    AuthManifestKeyConfigFromFile {
        ecc_pub_key: None,
        ecc_priv_key: None,
        lms_pub_key: None,
        lms_priv_key: None,
    }
}

fn sample_config() -> AspeedAuthManifestConfigFromFile {
    AspeedAuthManifestConfigFromFile {
        manifest_config: AspeedAuthManifestGeneralConfigFromFile {
            version: 1,
            flags: 0,
            security_version: 5,
            vnd_ecc_sig: String::new(),
            vnd_lms_sig: String::new(),
        },
        authtool: AspeedManifestToolDependencies {
            caliptra_sw_auth: "tools/caliptra-sw".to_string(),
            caliptra_mcu_sw: "tools/caliptra-mcu-sw".to_string(),
        },
        vendor_fw_key_config: AuthManifestKeyConfigFromFile {
            ecc_pub_key: Some("keys/vnd-fw-ecc.pub".to_string()),
            ecc_priv_key: None,
            lms_pub_key: None,
            lms_priv_key: None,
        },
        vendor_man_key_config: empty_keys(),
        owner_fw_key_config: None,
        owner_man_key_config: Some(empty_keys()),
        image_runtime_list: AspeedImageRuntimeConfigFromFile {
            caliptra_file: "caliptra.bin".to_string(),
            mcu_file: String::new(),
        },
        image_metadata_list: vec![img("boot.bin", 0, 0), img("", 1, 1), img("app.bin", 2, 2)],
    }
}

#[test]
fn join_path_inserts_one_separator() {
    assert_eq!(join_path("out", "x.bin"), "out/x.bin");
    assert_eq!(join_path("out/", "x.bin"), "out/x.bin");
    assert_eq!(join_path("", "x.bin"), "x.bin");
    assert_eq!(join_path("out", "/abs/x.bin"), "/abs/x.bin");
}

#[test]
fn parent_of_strips_after_last_separator() {
    assert_eq!(parent_of("out/sub/x.bin"), "out/sub");
    assert_eq!(parent_of("out/x.bin"), "out");
    assert_eq!(parent_of("x.bin"), "");
    assert_eq!(parent_of(""), "");
}

#[test]
fn out_folder_prefers_manifest_then_flash_then_default() {
    let man = "dir1/m.bin".to_string();
    let flash = "dir2/f.bin".to_string();
    assert_eq!(get_out_folder_path(Some(&man), Some(&flash)), "dir1");
    assert_eq!(get_out_folder_path(None, Some(&flash)), "dir2");
    assert_eq!(get_out_folder_path(None, None), "out");
}

#[test]
fn derived_paths_follow_out_folder() {
    let man = "build/m.bin".to_string();
    assert_eq!(get_caliptra_cfg_path(Some(&man), None), "build/caliptra-manifest.toml");
    assert_eq!(get_svn_sig_path(Some(&man), None), "build/svn_sig.bin");
    assert_eq!(get_caliptra_cfg_path(None, None), "out/caliptra-manifest.toml");
}

#[test]
fn manifest_and_flash_paths_default_per_project() {
    let prj = "boardx".to_string();
    let man = "given/m.bin".to_string();
    let flash = "fl/f.bin".to_string();
    assert_eq!(get_manifest_path(Some(&man), None, &prj), "given/m.bin");
    assert_eq!(get_manifest_path(None, Some(&flash), &prj), "fl/boardx-auth-manifest.bin");
    assert_eq!(get_manifest_path(None, None, &prj), "out/boardx-auth-manifest.bin");
    assert_eq!(get_flash_image_path(Some(&flash), &prj), "fl/f.bin");
    assert_eq!(get_flash_image_path(None, &prj), "out/boardx-flash-image.bin");
    assert_eq!(get_prebuilt_dir_path(None, &prj), "prebuilt/boardx/");
    assert_eq!(get_key_dir_path(None, &prj), "key/boardx/");
}

#[test]
fn project_name_defaults() {
    let name = "boardx".to_string();
    assert_eq!(get_project_name(Some(&name)), "boardx");
    assert_eq!(get_project_name(None), "default_project");
}

#[test]
fn path_existence_checks() {
    assert!(check_path_exists("anything", true).is_ok());
    assert_eq!(check_path_exists("missing", false).unwrap_err(), ManifestError::PathNotFound);
    let cfg = "cfg.toml".to_string();
    assert_eq!(get_aspeed_cfg_path(&cfg, true).unwrap(), "cfg.toml");
    assert_eq!(get_aspeed_cfg_path(&cfg, false).unwrap_err(), ManifestError::PathNotFound);
}

#[test]
fn tool_dir_prefers_release_then_debug() {
    let exe = "/somewhere/bin".to_string();
    assert_eq!(select_tool_dir(true, true, &exe), "./target/release");
    assert_eq!(select_tool_dir(false, true, &exe), "./target/debug");
    assert_eq!(select_tool_dir(false, false, &exe), "/somewhere/bin");
}

#[test]
fn pathbufext_resolves_optional_paths() {
    let some: Option<String> = Some("a/b".to_string());
    let none: Option<String> = None;
    assert_eq!(some.unwrap_or_def("d".to_string()), "a/b");
    assert_eq!(none.unwrap_or_def("d".to_string()), "d");
    assert_eq!(some.unwrap_or_err(), "a/b");
    assert_eq!(PathBufExt::to_string(&some), "a/b");
    let plain = "p/q".to_string();
    assert_eq!(plain.unwrap_or_def("d".to_string()), "p/q");
    assert_eq!(plain.unwrap_or_err(), "p/q");
    assert_eq!(PathBufExt::to_string(&plain), "p/q");
}

#[test]
fn find_prebuilt_img_path_resolves_against_prebuilt_dir() {
    let mut cfg = sample_config();
    let prebuilt = "prebuilt/boardx".to_string();
    let dummy = "tmp/dummy.bin".to_string();
    cfg.find_prebuilt_img_path(&prebuilt, &dummy);
    assert_eq!(cfg.image_metadata_list[0].file, "prebuilt/boardx/boot.bin");
    assert_eq!(cfg.image_metadata_list[1].file, "tmp/dummy.bin");
    assert_eq!(cfg.image_metadata_list[2].file, "prebuilt/boardx/app.bin");
    assert_eq!(cfg.image_metadata_list[1].source, 1);
    assert_eq!(cfg.image_runtime_list.caliptra_file, "prebuilt/boardx/caliptra.bin");
    assert_eq!(cfg.image_runtime_list.mcu_file, "tmp/dummy.bin");
    assert_eq!(cfg.manifest_config.security_version, 5);
}

#[test]
fn build_caliptra_cfg_digests_each_image() {
    let cfg = sample_config();
    let contents = vec![vec![1u8; 47], vec![2u8; 44], vec![3u8; 10]];
    let out = cfg.build_caliptra_cfg(&contents);
    assert_eq!(out.image_metadata_list.len(), 3);

    let mut padded = vec![1u8; 47];
    padded.push(0);
    let expected0 = hex::encode(sha2::Sha384::digest(&padded));
    assert_eq!(out.image_metadata_list[0].digest, expected0);

    let expected1 = hex::encode(sha2::Sha384::digest(&vec![2u8; 44]));
    assert_eq!(out.image_metadata_list[1].digest, expected1);

    assert_eq!(out.image_metadata_list[2].source, 2);
    assert_eq!(out.image_metadata_list[2].fw_id, 2);
    assert_eq!(out.vendor_fw_key_config.ecc_pub_key.as_deref(), Some("keys/vnd-fw-ecc.pub"));
    assert!(out.owner_fw_key_config.is_none());
    assert!(out.owner_man_key_config.is_some());
}

#[test]
fn select_soc_images_skips_runtime_firmware() {
    let list = vec![img("a.bin", 0, 0), img("runtime.bin", 1, 1), img("b.bin", 2, 7)];
    let files = select_soc_images(&list);
    assert_eq!(files, vec!["a.bin".to_string(), "b.bin".to_string()]);
}

#[test]
fn algorithm_and_role_dispatch() {
    assert_eq!(parse_algorithm("ecc"), Some(SignatureAlgorithm::Ecc));
    assert_eq!(parse_algorithm("lms"), Some(SignatureAlgorithm::Lms));
    assert_eq!(parse_algorithm("rsa"), None);
    assert_eq!(parse_algorithm(""), None);
    assert_eq!(parse_key_role("fw"), Some(KeyRole::Fw));
    assert_eq!(parse_key_role("man"), Some(KeyRole::Man));
    assert_eq!(parse_key_role("own"), None);
    assert_eq!(
        key_path_for(SignatureAlgorithm::Ecc, KeyRole::Fw),
        "key/ast2700a1-default/own-fw-ecc-prvk.pem"
    );
    assert_eq!(
        key_path_for(SignatureAlgorithm::Lms, KeyRole::Man),
        "key/ast2700a1-default/own-man-lms-prvk.pem"
    );
}

#[test]
fn digest_lines_are_trimmed_and_decoded() {
    assert_eq!(trim_line("  abC0 \r\n"), "abC0");
    assert_eq!(trim_line(""), "");
    assert_eq!(trim_line(" \t "), "");
    assert_eq!(parse_digest_line(" abC0 \n").unwrap(), vec![0xAB, 0xC0]);
    assert_eq!(parse_digest_line("xyz\n").unwrap_err(), ManifestError::ConfigError);
}
