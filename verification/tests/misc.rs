use goldberg_drop::emulator::{find_job_artifact, has_steam_api_dll, needs_download, use_cached_build};
use goldberg_drop::goldberg::{apply_setup, appid_text, dlc_file, find_dll_directories, swap_backup_name, SetupStep};
use goldberg_drop::models::{DlcApp, GgItemResponse};
use goldberg_drop::paths::{file_name_of, parent_of};
use goldberg_drop::queue::{
    after_gg_download, combine_errors, process_queue_item, retry_with_steamcmd, steamcmd_outcome, AfterGg, DownloadQueue,
    QueueDecision,
};
use goldberg_drop::settings::AppSettings;
use goldberg_drop::single_instance::{forward_command, IpcCommand};
use goldberg_drop::steamcmd::{
    batch_script, download_workshop_item, resolve_app_id, single_item_result, SteamCmdError, WorkshopJob,
};

#[test]
fn dll_folders_and_setup_steps() {
    let files = vec![
        "C:\\G\\Game.exe".to_string(),
        "C:\\G\\Binaries\\Win64\\STEAM_API64.dll".to_string(),
        "C:\\G\\Binaries\\Win64\\steam_api.dll".to_string(),
        "C:\\G\\steam_api.dll".to_string(),
    ];
    assert_eq!(
        find_dll_directories(&files),
        vec!["C:\\G\\Binaries\\Win64".to_string(), "C:\\G".to_string()]
    );
    let (steps, any) = apply_setup("C:\\G", &vec![("C:\\G\\Bin".to_string(), false, true), ("C:\\G".to_string(), true, false)]);
    assert!(any);
    let names: Vec<String> = steps
        .iter()
        .map(|s| match s {
            SetupStep::WriteConfig(d) => format!("cfg {d}"),
            SetupStep::SwapDll(d, n) => format!("swap {d} {n}"),
        })
        .collect();
    assert_eq!(names, vec!["cfg C:\\G", "cfg C:\\G\\Bin", "swap C:\\G\\Bin steam_api64", "swap C:\\G steam_api"]);
    let (steps, any) = apply_setup("C:\\G", &vec![]);
    assert!(!any);
    assert_eq!(steps.len(), 1);
    assert_eq!(appid_text(4169770), "4169770");
    let dlcs = vec![DlcApp { app_id: 1, name: "A".into() }, DlcApp { app_id: 22, name: "B b".into() }];
    assert_eq!(dlc_file(&dlcs).as_deref(), Some("1=A\n22=B b\n"));
    assert_eq!(dlc_file(&vec![]), None);
    assert_eq!(swap_backup_name("steam_api64", false), ("steam_api64_o.dll".to_string(), false));
    assert_eq!(swap_backup_name("steam_api", true), (".steam_api.dll.GOLDBERGDROPBACKUP".to_string(), true));
}

#[test]
fn steamcmd_batches_and_results() {
    assert_eq!(resolve_app_id(5, Some(6), Some(7)), 5);
    assert_eq!(resolve_app_id(0, Some(0), Some(7)), 7);
    assert_eq!(resolve_app_id(0, Some(6), None), 6);
    assert_eq!(resolve_app_id(0, None, None), 0);
    assert_eq!(
        batch_script(&vec![(10, 100), (0, 200), (30, 300)]),
        "@ShutdownOnFailedCommand 0\n@NoPromptForPassword 1\nlogin anonymous\nworkshop_download_item 10 100\nworkshop_download_item 30 300\nquit\n"
    );
    let job = WorkshopJob { app_id: 10, workshop_id: 100, dest_dir: "D:\\Mods".into(), mod_name: "Cool: Mod".into() };
    match download_workshop_item(&job, "C:\\SC", true, false) {
        Ok((src, target)) => {
            assert_eq!(src, "C:\\SC\\steamapps\\workshop\\content\\10\\100");
            assert_eq!(target, "D:\\Mods\\Cool_ Mod");
        }
        Err(_) => panic!("expected a copy"),
    }
    assert!(matches!(download_workshop_item(&job, "C:\\SC", false, true), Err(SteamCmdError::Incomplete(d)) if d == "C:\\SC\\steamapps\\workshop\\downloads\\10\\100"));
    assert!(matches!(download_workshop_item(&job, "C:\\SC", false, false), Err(SteamCmdError::ContentMissing(_))));
    let no_app = WorkshopJob { app_id: 0, ..job };
    assert!(matches!(download_workshop_item(&no_app, "C:\\SC", true, true), Err(SteamCmdError::MissingAppId(100))));
}

#[test]
fn goldberg_release_link() {
    let page = "<a href=\"https://gitlab.com/Mr_Goldberg/goldberg_emulator/-/jobs/4247811310/artifacts/download\">";
    let (url, job) = find_job_artifact(page).unwrap();
    assert_eq!(url, "https://gitlab.com/Mr_Goldberg/goldberg_emulator/-/jobs/4247811310/artifacts/download");
    assert_eq!(job, "4247811310");
    assert!(find_job_artifact("no link").is_none());
    assert!(!needs_download(Some(" 4247811310\n"), "4247811310"));
    assert!(needs_download(Some("1"), "4247811310"));
    assert!(needs_download(None, "1"));
    assert!(has_steam_api_dll(false, true));
    assert!(!has_steam_api_dll(false, false));
}

fn gg(result: u32, game: &str, name: &str) -> GgItemResponse {
    GgItemResponse { result, id: "1".into(), game: game.into(), name: name.into(), size: None, download: Some("u".into()) }
}

#[test]
fn queue_items_move_through_their_states() {
    let mut q = DownloadQueue::new();
    q.enqueue(111);
    q.enqueue(222);
    assert!(q.lookup_pending());
    assert_eq!(q.next_queued(), Some(0));
    let (wid, gid, m, g) = q.start(0);
    assert_eq!((wid, gid, m.as_str(), g.as_str()), (111, 0, "Item 111", "App 0"));
    assert_eq!(q.next_queued(), Some(1));
    q.finish_done(0, "D:\\Mods\\X".into(), "X".into(), "Game".into());
    q.finish_failed(1, "boom".into());
    assert_eq!(q.next_queued(), None);
    assert_eq!(q.items[0].download_path.as_deref(), Some("D:\\Mods\\X"));
    assert!(q.lookup_pending());
}

#[test]
fn queue_items_pick_a_provider() {
    let s = AppSettings::default();
    match process_queue_item(9, 5, "M".into(), "G".into(), &s, false, Ok(gg(1, "751780", "Fast")), None) {
        QueueDecision::Gg(_, m, g) => assert_eq!((m.as_str(), g.as_str()), ("Fast", "App 751780")),
        _ => panic!("expected GGNetwork"),
    }
    match process_queue_item(9, 5, "M".into(), "G".into(), &s, false, Ok(gg(1, "", "")), Some(("Page".into(), None))) {
        QueueDecision::Gg(_, m, g) => assert_eq!((m.as_str(), g.as_str()), ("Page", "App 5")),
        _ => panic!("expected GGNetwork"),
    }
    match process_queue_item(9, 5, "M".into(), "G".into(), &s, false, Ok(gg(0, "1", "x")), None) {
        QueueDecision::Fail(e) => assert_eq!(e, "Not available on GGNetwork"),
        _ => panic!("expected a failure (SteamCMD needs confirmation)"),
    }
    let mut auto = AppSettings::default();
    auto.ask_before_steamcmd = false;
    assert!(retry_with_steamcmd(&auto));
    match process_queue_item(9, 5, "M".into(), "G".into(), &auto, false, Err("offline".into()), None) {
        QueueDecision::SteamCmd(a, m, g, e) => {
            assert_eq!((a, m.as_str(), g.as_str()), (5, "M", "G"));
            assert_eq!(e.as_deref(), Some("offline"));
        }
        _ => panic!("expected SteamCMD"),
    }
    let mut none = AppSettings::default();
    none.use_steamcmd = false;
    match process_queue_item(9, 5, "M".into(), "G".into(), &none, true, Err("x".into()), None) {
        QueueDecision::Fail(e) => assert_eq!(e, "No download providers enabled"),
        _ => panic!("expected no provider"),
    }
    assert_eq!(combine_errors("a", "b"), "a; SteamCMD: b");
}

#[test]
fn second_launches_forward_their_command() {
    let quiet = IpcCommand { greenluma: false, path: None, show: false };
    assert!(forward_command(&quiet, true).is_none());
    let f = forward_command(&quiet, false).unwrap();
    assert!(f.show && !f.greenluma);
    let with_path = IpcCommand { greenluma: true, path: Some("C:\\x.exe".into()), show: false };
    let f = forward_command(&with_path, true).unwrap();
    assert!(f.show && f.greenluma);
    assert_eq!(f.path.as_deref(), Some("C:\\x.exe"));
}

#[test]
fn command_lines_become_launch_commands() {
    use_launch();
}

fn use_launch() {
    let args: Vec<String> = vec!["-tray".into(), "--x".into(), "C:\\a.exe".into(), "C:\\b.exe".into()];
    let parsed = goldberg_drop::single_instance::parse_launch_args(&args);
    assert!(parsed.start_in_tray && !parsed.open_greenluma);
    assert_eq!(parsed.initial_path.as_deref(), Some("C:\\a.exe"));
    let (cmd, quiet) = goldberg_drop::single_instance::launch_command(&parsed);
    assert!(cmd.show && !quiet);
    let tray_only = goldberg_drop::single_instance::parse_launch_args(&vec!["--tray".to_string()]);
    let (cmd, quiet) = goldberg_drop::single_instance::launch_command(&tray_only);
    assert!(!cmd.show && quiet);
    assert!(forward_command(&cmd, quiet).is_none());
}

#[test]
fn forced_steamcmd_carries_no_ggnetwork_error() {
    let s = AppSettings::default();
    match process_queue_item(9, 5, "M".into(), "G".into(), &s, true, Err("unused".into()), None) {
        QueueDecision::SteamCmd(a, m, g, e) => {
            assert_eq!((a, m.as_str(), g.as_str()), (5, "M", "G"));
            assert!(e.is_none());
        }
        _ => panic!("expected SteamCMD"),
    }
}

#[test]
fn failed_ggnetwork_download_falls_back_under_queue_names() {
    let mut auto = AppSettings::default();
    auto.ask_before_steamcmd = false;
    match after_gg_download(5, "M".into(), "G".into(), &auto, "Fast".into(), "App 7".into(), Err("disk full".into())) {
        AfterGg::SteamCmd(a, m, g, e) => {
            assert_eq!((a, m.as_str(), g.as_str(), e.as_str()), (5, "M", "G", "disk full"));
        }
        _ => panic!("expected SteamCMD"),
    }
    let ask = AppSettings::default();
    match after_gg_download(5, "M".into(), "G".into(), &ask, "Fast".into(), "App 7".into(), Err("disk full".into())) {
        AfterGg::Failed(e) => assert_eq!(e, "disk full"),
        _ => panic!("expected failure"),
    }
    match after_gg_download(5, "M".into(), "G".into(), &ask, "Fast".into(), "App 7".into(), Ok("D:\\x".into())) {
        AfterGg::Saved(p, m, g) => assert_eq!((p.as_str(), m.as_str(), g.as_str()), ("D:\\x", "Fast", "App 7")),
        _ => panic!("expected saved"),
    }
    assert_eq!(
        steamcmd_outcome(Some("disk full".into()), "M".into(), "G".into(), Err("timeout".into())),
        Err("disk full; SteamCMD: timeout".to_string())
    );
    assert_eq!(steamcmd_outcome(None, "M".into(), "G".into(), Err("timeout".into())), Err("timeout".to_string()));
    assert_eq!(
        steamcmd_outcome(None, "M".into(), "G".into(), Ok("D:\\y".into())),
        Ok(("D:\\y".to_string(), "M".to_string(), "G".to_string()))
    );
}

#[test]
fn one_item_download_is_the_first_batch_result() {
    assert_eq!(single_item_result(Err("no steamcmd".into())), Err("no steamcmd".to_string()));
    assert_eq!(
        single_item_result(Ok(vec![Ok("D:\\Mods\\X".into()), Err("other".into())])),
        Ok("D:\\Mods\\X".to_string())
    );
    assert_eq!(single_item_result(Ok(vec![Err("copy failed".into())])), Err("copy failed".to_string()));
    assert_eq!(single_item_result(Ok(vec![])), Err("SteamCMD returned no result".to_string()));
}

#[test]
fn drive_roots_have_no_name_and_no_parent() {
    assert_eq!(parent_of("C:\\a").as_deref(), Some("C:\\"));
    assert_eq!(parent_of("C:\\a\\b.exe").as_deref(), Some("C:\\a"));
    assert_eq!(parent_of("C:\\"), None);
    assert_eq!(parent_of("C:"), None);
    assert_eq!(parent_of("C:a").as_deref(), Some("C:"));
    assert_eq!(parent_of("\\a").as_deref(), Some("\\"));
    assert_eq!(parent_of("a"), None);
    assert_eq!(file_name_of("C:\\"), "");
    assert_eq!(file_name_of("C:"), "");
    assert_eq!(file_name_of("C:a"), "a");
    assert_eq!(file_name_of("C:\\a"), "a");
    assert_eq!(file_name_of("\\\\"), "");
}

#[test]
fn cached_build_is_used_only_when_current_and_complete() {
    assert!(use_cached_build(Some(" 12345\n"), "12345", true));
    assert!(!use_cached_build(Some("12345"), "12345", false));
    assert!(!use_cached_build(Some("12344"), "12345", true));
    assert!(!use_cached_build(None, "12345", true));
}
