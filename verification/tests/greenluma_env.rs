use goldberg_drop::games::TrackedGame;
use goldberg_drop::greenluma::{
    acf_display_name, bundled_password, bundled_version, detect_steam, hex_upper_string,
    injector_ini, is_game_session_active, is_installed, is_non_game_steamapps_path,
    is_steam_running, library_roots, primary_library, restart_steam_injected,
    scan_active_downloads, shutdown_next, start_steam_injected, verify_install,
    DownloadDirEntry, GreenLumaError, HashManifest, LibraryScan, ShutdownAction, ShutdownPhase,
    RunState, SteamProbe, SteamRun, SteamStep,
};
use goldberg_drop::settings::AppSettings;

const ABC_SHA256: &str = "BA7816BF8F01CFEA414140DE5DAE2223B00361A396177A9CB410FF61F20015AD";

fn manifest(hash_x64: &str) -> HashManifest {
    HashManifest {
        version: "1.6.9".into(),
        archive: "GreenLuma_2026.7z".into(),
        password: "secret".into(),
        files: vec![
            ("GreenLuma_2026_x64.dll".into(), hash_x64.into()),
            ("GreenLuma_2026_x86.dll".into(), ABC_SHA256.to_lowercase()),
            ("DLLInjector.exe".into(), ABC_SHA256.into()),
        ],
    }
}

#[test]
fn installs_are_checked_against_the_hash_list() {
    let m = manifest(ABC_SHA256);
    assert_eq!(bundled_password(&m), "secret");
    assert_eq!(bundled_version(&m), "1.6.9");
    let files = vec![Some(b"abc".to_vec()), Some(b"abc".to_vec()), Some(b"abc".to_vec())];
    assert!(verify_install(&m, &files).is_ok());
    assert!(is_installed(&m, &files));
    let missing = vec![Some(b"abc".to_vec()), None];
    match verify_install(&m, &missing) {
        Err(GreenLumaError::MissingFile(n)) => assert_eq!(n, "GreenLuma_2026_x86.dll"),
        _ => panic!("expected a missing file"),
    }
    let bad = manifest("00");
    match verify_install(&bad, &files) {
        Err(GreenLumaError::HashMismatch(n, expected, actual)) => {
            assert_eq!(n, "GreenLuma_2026_x64.dll");
            assert_eq!(expected, "00");
            assert_eq!(actual, ABC_SHA256);
        }
        _ => panic!("expected a mismatch"),
    }
    let mut no_entry = manifest(ABC_SHA256);
    no_entry.files.truncate(2);
    assert!(matches!(verify_install(&no_entry, &files), Err(GreenLumaError::NoHashEntry(n)) if n == "DLLInjector.exe"));
    assert_eq!(hex_upper_string(&vec![0x0f, 0xa0]), "0FA0");
}

fn probe(detected: Option<&str>, exe_ok: bool) -> SteamProbe {
    SteamProbe {
        override_exe_is_file: true,
        library_override_is_dir: false,
        detected_dir: detected.map(|s| s.to_string()),
        steam_exe_is_file: exe_ok,
        primary_library: Some("D:\\Lib".into()),
    }
}

#[test]
fn steam_is_found_from_choices_or_detection() {
    let mut s = AppSettings::default();
    let p = detect_steam(&s, &probe(Some("C:\\Steam"), true)).ok().unwrap();
    assert_eq!((p.steam_exe.as_str(), p.steam_dir.as_str(), p.library_root.as_str()), ("C:\\Steam\\steam.exe", "C:\\Steam", "D:\\Lib"));
    assert!(matches!(detect_steam(&s, &probe(None, true)), Err(GreenLumaError::SteamNotFound)));
    assert!(matches!(detect_steam(&s, &probe(Some("C:\\Steam"), false)), Err(GreenLumaError::SteamExeMissing(d)) if d == "C:\\Steam"));
    s.steam_exe_override = Some("E:\\S\\steam.exe".into());
    s.steam_library_override = Some("F:\\L".into());
    let p = detect_steam(&s, &probe(None, false)).ok().unwrap();
    assert_eq!((p.steam_dir.as_str(), p.library_root.as_str()), ("E:\\S", "E:\\S"));
}

#[test]
fn libraries_from_libraryfolders_vdf() {
    let vdf = "\"libraryfolders\" { \"0\" { \"path\" \"C:\\\\Steam\" } \"1\" { \"path\" \"D:\\\\Games\" } }";
    assert_eq!(primary_library("C:\\Steam", None, &vec![]), "C:\\Steam");
    assert_eq!(primary_library("C:\\Steam", Some(vdf), &vec![false, true]), "D:\\Games");
    assert_eq!(primary_library("C:\\Steam", Some(vdf), &vec![false, false]), "C:\\Steam");
    assert_eq!(
        library_roots("C:\\Steam", Some(vdf), &vec![true, true], Some("E:\\Lib")),
        vec!["C:\\Steam".to_string(), "D:\\Games".to_string(), "E:\\Lib".to_string()]
    );
}

#[test]
fn active_downloads_are_found_once() {
    let entry = |name: &str, is_dir: bool, has: bool, acf: Option<&str>| DownloadDirEntry {
        name: name.into(),
        is_dir,
        has_entries: has,
        acf_name: acf.map(|s| s.to_string()),
    };
    let lib = LibraryScan {
        downloading: vec![entry("70", true, true, Some("Half-Life")), entry("80", true, false, None), entry("x", true, true, None)],
        temp: vec![entry("70", true, true, None), entry("90", true, true, None)],
        manifests: vec![
            ("appmanifest_100.acf".into(), Some("\"appid\" \"100\" \"name\" \" Orb \" \"StateFlags\" \"1026\"".into())),
            ("APPMANIFEST_200.ACF".into(), Some("\"StateFlags\" \"512\"".into())),
            ("appmanifest_300.acf".into(), Some("\"StateFlags\" \"4\"".into())),
            ("readme.txt".into(), Some("\"StateFlags\" \"512\"".into())),
        ],
    };
    let hits = scan_active_downloads(&vec![lib]);
    let got: Vec<(u32, &str)> = hits.iter().map(|(i, n)| (*i, n.as_str())).collect();
    assert_eq!(got, vec![(70, "Half-Life"), (90, "App 90"), (100, "Orb"), (200, "App 200")]);
    assert_eq!(acf_display_name("\"name\" \"  \"").as_deref(), None);
}

#[test]
fn running_processes() {
    assert!(is_steam_running("Steam.exe                 4242 Console"));
    assert!(!is_steam_running("INFO: No tasks are running which match the specified criteria."));
    assert!(is_non_game_steamapps_path("C:\\Steam\\steamapps\\common\\Steamworks Shared\\x.exe"));
    assert!(!is_non_game_steamapps_path("c:\\steam\\steamapps\\common\\hades\\hades.exe"));
    let games = vec![TrackedGame { app_id: 1, name: "Hades".into(), exe_path: "C:/Games/Hades/Hades.exe".into(), icon_path: None }];
    let paths = Some(vec!["c:\\games\\hades\\hades.exe".to_string()]);
    assert!(is_game_session_active(&games, &vec![true], &paths));
    assert!(!is_game_session_active(&games, &vec![false], &paths));
    let other = Some(vec!["c:\\elsewhere\\hades.exe".to_string()]);
    assert!(!is_game_session_active(&games, &vec![true], &other));
    assert!(is_game_session_active(&games, &vec![true], &None));
    let common = Some(vec!["c:\\steam\\steamapps\\common\\orb\\orb.exe".to_string()]);
    assert!(is_game_session_active(&vec![], &vec![], &common));
}

#[test]
fn starting_steam_with_greenluma() {
    assert_eq!(start_steam_injected(true), vec![SteamStep::VerifyInstall, SteamStep::WriteInjectorIni, SteamStep::SyncAppList]);
    assert_eq!(start_steam_injected(false).last(), Some(&SteamStep::MarkGreenLumaMode));
    assert_eq!(restart_steam_injected()[3], SteamStep::ShutdownSteam);
    assert_eq!(shutdown_next(ShutdownPhase::Start, false, 0), ShutdownAction::AlreadyStopped);
    assert_eq!(shutdown_next(ShutdownPhase::Start, true, 0), ShutdownAction::SendShutdown);
    assert_eq!(shutdown_next(ShutdownPhase::Waiting, true, 1000), ShutdownAction::Wait(400));
    assert_eq!(shutdown_next(ShutdownPhase::Waiting, true, 45001), ShutdownAction::ForceKill);
    assert_eq!(shutdown_next(ShutdownPhase::Waiting, false, 45001), ShutdownAction::Settle);
    assert_eq!(shutdown_next(ShutdownPhase::Killed, true, 0), ShutdownAction::Fail);
    let ini = injector_ini("C:\\Steam\\steam.exe", "C:\\GL\\GreenLuma_2026_x64.dll");
    assert!(ini.starts_with("[DllInjector]\n"));
    assert!(ini.contains("\nExe = C:\\Steam\\steam.exe\nCommandLine = -inhibitbootstrap\n"));
    assert!(ini.contains("\nDll = C:\\GL\\GreenLuma_2026_x64.dll\nExport = Init\n"));
    assert!(ini.ends_with("BootImageYOffest = 280\n"));
}

#[test]
fn a_failed_install_check_stops_the_restart() {
    let (mut run, first) = SteamRun::new(restart_steam_injected());
    assert!(matches!(first, RunState::Run(SteamStep::VerifyInstall)));
    match run.record(Err("GreenLuma files changed".to_string())) {
        RunState::Failed(e) => assert_eq!(e, "GreenLuma files changed"),
        other => panic!("expected the run to stop, got {other:?}"),
    }
}

#[test]
fn a_restart_runs_every_step_in_order_and_shrugs_off_a_failed_sync() {
    let (mut run, first) = SteamRun::new(restart_steam_injected());
    assert!(matches!(first, RunState::Run(SteamStep::VerifyInstall)));
    assert!(matches!(run.record(Ok(())), RunState::Run(SteamStep::WriteInjectorIni)));
    assert!(matches!(run.record(Ok(())), RunState::Run(SteamStep::SyncAppList)));
    assert!(matches!(run.record(Err("AppList locked".to_string())), RunState::Run(SteamStep::ShutdownSteam)));
    assert!(matches!(run.record(Ok(())), RunState::Run(SteamStep::SpawnInjector)));
    assert!(matches!(run.record(Ok(())), RunState::Run(SteamStep::MarkGreenLumaMode)));
    assert!(matches!(run.record(Err("settings not saved".to_string())), RunState::Finished));
}

#[test]
fn a_failed_shutdown_keeps_the_injector_from_starting() {
    let (mut run, _) = SteamRun::new(restart_steam_injected());
    for _ in 0..3 {
        run.record(Ok(()));
    }
    assert!(matches!(run.record(Err("Steam did not exit".to_string())), RunState::Failed(_)));
}
