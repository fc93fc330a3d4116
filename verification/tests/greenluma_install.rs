use goldberg_drop::greenluma::{
    check_archive_file, detect_steam_dir, extra_file_wanted, find_named, install_passwords, install_sources,
    lists_image, normalize_steam_path, under_install_folder, GreenLumaError, HashManifest,
};

const ABC_SHA256: &str = "BA7816BF8F01CFEA414140DE5DAE2223B00361A396177A9CB410FF61F20015AD";

fn manifest() -> HashManifest {
    HashManifest {
        version: "1".into(),
        archive: "GreenLuma_2026.7z".into(),
        password: "pw".into(),
        files: vec![
            ("GreenLuma_2026_x64.dll".into(), ABC_SHA256.into()),
            ("GreenLumaSettings_2026.exe".into(), "00".into()),
        ],
    }
}

fn e(p: &str, dir: bool) -> (String, bool) {
    (p.to_string(), dir)
}

#[test]
fn steam_is_found_in_order() {
    assert_eq!(normalize_steam_path("c:/program files (x86)/steam"), "c:\\program files (x86)\\steam");
    let found = detect_steam_dir(Some(("d:/Steam".to_string(), true)), &vec![e("E:\\Steam", true)], &vec![true, true]);
    assert_eq!(found.ok().as_deref(), Some("d:\\Steam"));
    let found = detect_steam_dir(
        Some(("d:/Steam".to_string(), false)),
        &vec![e("E:\\Gone", false), e("E:\\Steam", true)],
        &vec![true, true],
    );
    assert_eq!(found.ok().as_deref(), Some("E:\\Steam"));
    let found = detect_steam_dir(None, &vec![], &vec![false, true]);
    assert_eq!(found.ok().as_deref(), Some("C:\\Program Files\\Steam"));
    assert!(matches!(detect_steam_dir(None, &vec![], &vec![false]), Err(GreenLumaError::SteamNotFound)));
}

#[test]
fn archive_passwords_start_with_the_known_ones() {
    let p = install_passwords("bundled", &vec!["mine".to_string(), "cs.rin.ru".to_string()]);
    assert_eq!(p, vec!["cs.rin.ru", "bundled", "mine", "cs.rin.ru"]);
}

#[test]
fn required_files_come_from_the_injector_folder() {
    let entries = vec![
        e("S\\pack", true),
        e("S\\pack\\extra\\greenluma_2026_x86.dll", false),
        e("S\\pack\\bin", true),
        e("S\\pack\\bin\\DLLInjector.exe", false),
        e("S\\pack\\bin\\GreenLuma_2026_x64.dll", false),
        e("S\\pack\\GreenLuma2026_Files", true),
    ];
    let sources = install_sources(&entries).unwrap();
    assert_eq!(
        sources,
        vec![
            "S\\pack\\bin\\GreenLuma_2026_x64.dll",
            "S\\pack\\extra\\greenluma_2026_x86.dll",
            "S\\pack\\bin\\DLLInjector.exe",
        ]
    );
    assert_eq!(find_named(&entries, "greenluma2026_files", true), Some(5));
    assert_eq!(find_named(&entries, "DLLInjector.exe", true), None);

    let no_injector = vec![e("S\\x.dll", false)];
    assert_eq!(install_sources(&no_injector), Err("Archive does not contain DLLInjector.exe".to_string()));
    let missing = vec![e("S\\DLLInjector.exe", false), e("S\\GreenLuma_2026_x64.dll", false)];
    assert_eq!(install_sources(&missing), Err("Archive missing required file: GreenLuma_2026_x86.dll".to_string()));
}

#[test]
fn archive_files_are_checked_against_the_hash_list() {
    let m = manifest();
    assert_eq!(check_archive_file(&m, "GreenLuma_2026_x64.dll", &b"abc".to_vec()), Ok(()));
    assert_eq!(
        check_archive_file(&m, "GreenLuma_2026_x64.dll", &b"abd".to_vec()),
        Err("SHA256 mismatch for GreenLuma_2026_x64.dll — modified/unofficial file rejected".to_string())
    );
    assert_eq!(
        check_archive_file(&m, "DLLInjector.exe", &b"abc".to_vec()),
        Err("No hash for DLLInjector.exe".to_string())
    );
    assert!(extra_file_wanted(&m, "AppListManager.exe", &b"anything".to_vec()));
    assert!(!extra_file_wanted(&m, "GreenLumaSettings_2026.exe", &b"abc".to_vec()));
}

#[test]
fn lowered_process_and_folder_checks() {
    assert!(lists_image("steam.exe   1234 console", "steam.exe"));
    assert!(!lists_image("STEAM.EXE   1234 console", "steam.exe"));
    assert!(under_install_folder("pack/steamapps/common/garrysmod/gm.exe", "garrysmod"));
    assert!(!under_install_folder("pack/steamapps/common/garrysmod", "garrysmod"));
}
