use goldberg_drop::archive::{
    extract_with_password_tries, is_steam_library_layout, list_archive_outcome,
    list_with_password_tries, listing_is_cuttable, looks_like_wrong_password, lowered_acf_entry, parse_7z_list_paths,
    reports_wrong_password, ArchiveError, TryStep,
};

#[test]
fn parse_list_paths_extracts_names() {
    let sample = "\
2026-05-01 21:44:51 D....            0            0  steamapps
2026-05-01 21:44:51 ....A          814               steamapps\\appmanifest_4262310.acf
2026-05-01 21:44:50 ....A       667648     24250768  steamapps\\common\\Game\\Game.exe
";
    assert!(listing_is_cuttable(sample));
    let paths = parse_7z_list_paths(sample);
    assert!(paths.iter().any(|p| p.contains("appmanifest_4262310.acf")));
    assert!(paths.iter().any(|p| p.contains("Game.exe")));
    assert!(is_steam_library_layout(&paths));
}

#[test]
fn rejects_flat_layout() {
    let paths = vec!["Game.exe".into(), "data/foo.bin".into()];
    assert!(!is_steam_library_layout(&paths));
}

#[test]
fn listing_keeps_exact_names_and_skips_short_lines() {
    let sample = "short line\r\n2026-05-01 21:44:51 ....A          814               a\\b c.txt  \r\n2026-05-01 21:44:51 D....            0            0  .\n";
    let paths = parse_7z_list_paths(sample);
    assert_eq!(paths, vec!["a/b c.txt".to_string()]);
}

#[test]
fn listing_cut_inside_a_character_is_refused() {
    // 52 ASCII bytes, then a two-byte character covering byte 53.
    let line = format!("{}é{}", "x".repeat(52), "name");
    assert!(!listing_is_cuttable(&line));
    let line = format!("{}é{}", "x".repeat(51), "name");
    assert!(listing_is_cuttable(&line));
    assert_eq!(parse_7z_list_paths(&line), vec!["name".to_string()]);
}

#[test]
fn failed_listing_reports_wrong_password() {
    match list_archive_outcome(false, "", "ERROR: Wrong password : x.7z") {
        Err(ArchiveError::ListWrongPassword) => {}
        _ => panic!("expected wrong password"),
    }
    match list_archive_outcome(false, "", "ERROR: DATA ERROR in encrypted file") {
        Err(ArchiveError::ListWrongPassword) => {}
        _ => panic!("expected wrong password"),
    }
    match list_archive_outcome(false, "", "Can not open the file as archive") {
        Err(ArchiveError::ListFailed(e)) => assert_eq!(e, "Can not open the file as archive"),
        _ => panic!("expected list failure"),
    }
}

#[test]
fn password_tries_go_in_order_and_stop_at_first_success() {
    let pws = vec!["a".to_string(), "".to_string(), "b".to_string(), "a".to_string()];
    let mut tries = list_with_password_tries(&pws);
    assert_eq!(tries.password(), "");
    match tries.record(Err(ArchiveError::ListWrongPassword)) {
        TryStep::Try(p) => assert_eq!(p, "a"),
        _ => panic!("expected another try"),
    }
    match tries.record(Err(ArchiveError::ListWrongPassword)) {
        TryStep::Try(p) => assert_eq!(p, "b"),
        _ => panic!("expected another try"),
    }
    match tries.record(Ok(vec!["x".to_string()])) {
        TryStep::Opened(paths, pw) => {
            assert_eq!(paths, vec!["x".to_string()]);
            assert_eq!(pw, "b");
        }
        _ => panic!("expected success"),
    }
}

#[test]
fn password_tries_end_with_last_error() {
    let mut tries = list_with_password_tries(&vec![]);
    assert_eq!(tries.password(), "");
    match tries.record(Err(ArchiveError::ListFailed("boom".into()))) {
        TryStep::Failed(ArchiveError::ListFailed(e)) => assert_eq!(e, "boom"),
        _ => panic!("expected failure"),
    }
}

#[test]
fn empty_archive_is_not_extracted() {
    match extract_with_password_tries(Ok((vec![], "pw".to_string()))) {
        Err(ArchiveError::Empty) => {}
        _ => panic!("expected empty"),
    }
    assert_eq!(
        extract_with_password_tries(Ok((vec!["a".to_string()], "pw".to_string()))).ok(),
        Some("pw".to_string())
    );
}

#[test]
fn empty_listing_under_a_password_tries_the_next() {
    let pws = vec!["pw1".to_string(), "pw2".to_string()];
    let mut tries = list_with_password_tries(&pws);
    match tries.record(Err(ArchiveError::ListWrongPassword)) {
        TryStep::Try(p) => assert_eq!(p, "pw1"),
        _ => panic!("expected another try"),
    }
    match tries.record(Ok(vec![])) {
        TryStep::Try(p) => assert_eq!(p, "pw2"),
        _ => panic!("an empty listing under a password must not open the archive"),
    }
    match tries.record(Ok(vec!["a/b.txt".to_string()])) {
        TryStep::Opened(paths, pw) => {
            assert_eq!(paths, vec!["a/b.txt".to_string()]);
            assert_eq!(pw, "pw2");
        }
        _ => panic!("expected success"),
    }
}

#[test]
fn empty_listing_under_the_last_password_reports_the_last_error() {
    let mut tries = list_with_password_tries(&vec!["pw1".to_string()]);
    match tries.record(Err(ArchiveError::ListWrongPassword)) {
        TryStep::Try(p) => assert_eq!(p, "pw1"),
        _ => panic!("expected another try"),
    }
    match tries.record(Ok(vec![])) {
        TryStep::Failed(ArchiveError::ListWrongPassword) => {}
        _ => panic!("expected the last error"),
    }
}

#[test]
fn empty_listing_without_password_opens() {
    let mut tries = list_with_password_tries(&vec!["pw1".to_string()]);
    match tries.record(Ok(vec![])) {
        TryStep::Opened(paths, pw) => {
            assert!(paths.is_empty());
            assert_eq!(pw, "");
        }
        _ => panic!("expected success"),
    }
}

#[test]
fn lowered_text_checks() {
    assert!(reports_wrong_password("error: wrong password : a.dll"));
    assert!(!reports_wrong_password("ERROR: Wrong password"));
    assert!(looks_like_wrong_password("ERROR: Wrong password"));
    assert!(reports_wrong_password("cannot open encrypted archive"));
    assert!(lowered_acf_entry("pack/steamapps/appmanifest_4000.acf"));
    assert!(!lowered_acf_entry("pack/steamapps/appmanifest_4000.ACF"));
    assert!(!lowered_acf_entry("pack/steamapps/common/x.acf"));
}
