use goldberg_drop::greenluma::{acf_looks_downloading, library_paths, parse_acf, validate_csf_layout};

#[test]
fn parse_orb_acf() {
    let text = r#""AppState"
{
	"appid"		"4262310"
	"name"		" All Hail the Orb"
	"installdir"		"All Hail the Orb"
	"buildid"		"23025459"
}"#;
    let info = parse_acf(text).ok().unwrap();
    assert_eq!(info.app_id, 4262310);
    assert_eq!(info.installdir, "All Hail the Orb");
    assert!(info.name.contains("Orb"));
}

#[test]
fn validate_orb_paths() {
    let paths = vec![
        "depotcache/4262311_x.manifest".into(),
        "steamapps/appmanifest_4262310.acf".into(),
        "steamapps/common/All Hail the Orb/All Hail the Orb.exe".into(),
    ];
    let info = validate_csf_layout(&paths).ok().unwrap();
    assert_eq!(info.app_id, 4262310);
}

#[test]
fn acf_download_heuristic() {
    assert!(!acf_looks_downloading(
        r#""BytesToDownload" "0" "BytesDownloaded" "0" "StateFlags" "4""#
    ));
    assert!(acf_looks_downloading(
        r#""BytesToDownload" "1000" "BytesDownloaded" "100" "StateFlags" "6""#
    ));
    assert!(acf_looks_downloading(r#""StateFlags" "1026""#));
    assert!(acf_looks_downloading(r#""StateFlags" "516""#)); // 512|4
}

#[test]
fn acf_keys_match_case_insensitively_and_name_defaults() {
    let info = parse_acf("\"APPID\" \"70\"\n\"InstallDir\" \"Half-Life\"").ok().unwrap();
    assert_eq!(info.app_id, 70);
    assert_eq!(info.name, "App 70");
    assert_eq!(info.installdir, "Half-Life");
    assert!(info.buildid.is_none());
    assert!(parse_acf("\"appid\" \"x\" \"installdir\" \"a\"").is_err());
    assert!(parse_acf("\"appid\" \"5\"").is_err());
}

#[test]
fn vdf_library_paths_are_unescaped() {
    let vdf = "\"libraryfolders\"\n{\n \"0\"\n {\n  \"path\"\t\t\"C:\\\\Program Files (x86)\\\\Steam\"\n }\n \"1\" { \"PATH\" \"D:\\\\SteamLibrary\" \"path\" \"\" }\n}";
    assert_eq!(
        library_paths(vdf),
        vec!["C:\\Program Files (x86)\\Steam".to_string(), "D:\\SteamLibrary".to_string()]
    );
}
