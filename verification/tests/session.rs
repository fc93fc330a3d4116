use goldberg_drop::models::{GgItemResponse, QueueItem, QueueStatus, SteamApp};
use goldberg_drop::queue::{row_button, status_hint_text, RowButton};
use goldberg_drop::sendto::SendToStatus;
use goldberg_drop::session::{
    polish_names, Action, DownloadFlow, PasteOutcome, Screen, SendToUi, Session, SetupFlow, WorkerMsg,
};

fn failure(s: &QueueStatus) -> Option<&str> {
    match s {
        QueueStatus::Failed(e) => Some(e.as_str()),
        _ => None,
    }
}

fn app(id: u32, name: &str) -> SteamApp {
    SteamApp { app_id: id, name: name.to_string() }
}

fn gg(name: &str) -> GgItemResponse {
    GgItemResponse {
        result: 1,
        id: "1".to_string(),
        game: "4000".to_string(),
        name: name.to_string(),
        size: None,
        download: Some("https://example.com/m.zip".to_string()),
    }
}

#[test]
fn a_non_executable_is_refused() {
    let (s, actions) = Session::new(Some("C:\\Games\\readme.txt"));
    assert!(actions.is_empty());
    assert_eq!(s.setup.screen, Screen::Error);
    assert_eq!(s.setup.result_message, "Please select a valid .exe file.");
    assert!(s.setup.exe_path.is_none());
}

#[test]
fn a_dropped_executable_is_searched_then_set_up() {
    let (mut s, actions) = Session::new(Some("C:\\Games\\Foo\\Foo.EXE"));
    assert_eq!(s.setup.screen, Screen::Working);
    assert_eq!(s.setup.working_message, "Searching for \"Foo.EXE\"...");
    match actions.as_slice() {
        [Action::Search(p)] => assert_eq!(p, "C:\\Games\\Foo\\Foo.EXE"),
        other => panic!("unexpected {other:?}"),
    }

    let actions = s.on_message(WorkerMsg::SearchFound(app(4000, "Garry's Mod")));
    assert_eq!(s.setup.working_message, "Applying Goldberg setup for \"Garry's Mod\"...");
    match actions.as_slice() {
        [Action::Apply(dir, id, name)] => {
            assert_eq!(dir, "C:\\Games\\Foo");
            assert_eq!(*id, 4000);
            assert_eq!(name, "Garry's Mod");
        }
        other => panic!("unexpected {other:?}"),
    }

    let actions = s.on_message(WorkerMsg::ApplyDone {
        app_id: 4000,
        name: "Garry's Mod".to_string(),
        dll_swapped: true,
        dlc_count: 1,
        achievement_count: 3,
    });
    assert_eq!(s.setup.screen, Screen::Done);
    assert_eq!(
        s.setup.result_message,
        "Done! \"Garry's Mod\" (AppID 4000) is set up.\nsteam_api(64).dll replaced with Goldberg build. Fetched 1 DLC entry. Wrote 3 achievements."
    );
    match actions.as_slice() {
        [Action::TrackGame(exe, id, name)] => {
            assert_eq!(exe, "C:\\Games\\Foo\\Foo.EXE");
            assert_eq!(*id, 4000);
            assert_eq!(name, "Garry's Mod");
        }
        other => panic!("unexpected {other:?}"),
    }
}

#[test]
fn done_message_without_dll_counts_dlc_entries() {
    let mut s = SetupFlow::new();
    let actions = s.on_apply_done(10, "X".to_string(), false, 2, 0);
    assert!(actions.is_empty());
    assert_eq!(
        s.result_message,
        "Done! \"X\" (AppID 10) is set up.\nNo steam_api(64).dll found in the game folder or its subfolders — config written only. Fetched 2 DLC entries."
    );
}

#[test]
fn failures_show_their_message() {
    let mut s = SetupFlow::new();
    s.on_search_failed("timeout");
    assert_eq!(s.screen, Screen::Error);
    assert_eq!(s.result_message, "Search failed: timeout");
    s.on_apply_failed("disk full");
    assert_eq!(s.result_message, "Setup failed: disk full");
    let actions = s.start_apply(5, "Y".to_string());
    assert!(actions.is_empty());
    assert_eq!(s.result_message, "No game folder selected.");
}

#[test]
fn picking_a_match_fills_the_app_id() {
    let (mut s, _) = Session::new(Some("C:\\G\\g.exe"));
    s.on_message(WorkerMsg::SearchAmbiguous(vec![app(10, "Alpha"), app(20, "Beta")]));
    assert_eq!(s.setup.screen, Screen::ChooseMatch);
    s.setup.choose_candidate(1);
    assert_eq!(s.setup.manual_id_input, "20");
    assert_eq!(s.setup.submit_manual_id(), Some((20, Some("Beta".to_string()))));

    s.setup.edit_manual_id(" 20 ".to_string());
    assert_eq!(s.setup.submit_manual_id(), Some((20, Some("Beta".to_string()))));
    s.setup.edit_manual_id("21".to_string());
    assert!(s.setup.selected_match_name.is_none());
    assert_eq!(s.setup.submit_manual_id(), Some((21, None)));

    s.setup.edit_manual_id("abc".to_string());
    assert_eq!(s.setup.submit_manual_id(), None);
    assert_eq!(s.setup.manual_id_error.as_deref(), Some("Please enter a valid numeric App ID."));

    s.setup.reset();
    assert_eq!(s.setup.screen, Screen::Idle);
    assert!(s.setup.exe_path.is_none());
}

#[test]
fn not_found_asks_for_the_app_id() {
    let (mut s, _) = Session::new(Some("C:\\G\\g.exe"));
    s.on_message(WorkerMsg::SearchNotFound);
    assert_eq!(s.setup.screen, Screen::ManualId);
    s.setup.edit_manual_id("730".to_string());
    assert_eq!(s.setup.submit_manual_id(), Some((730, None)));
}

#[test]
fn queue_waits_for_names_then_downloads_one_at_a_time() {
    let mut d = DownloadFlow::new();
    let a = d.enqueue(111, true);
    assert!(matches!(a.as_slice(), [Action::Resolve(111)]));
    let a = d.enqueue(222, true);
    assert!(matches!(a.as_slice(), [Action::Resolve(222)]));
    assert!(d.flags.download_when_resolved);

    let a = d.on_queue_info(111, "Mod A".to_string(), "Game".to_string(), 4000, Some(gg("Mod A")), true);
    assert!(a.is_empty());
    let a = d.on_queue_info(222, "Mod B".to_string(), "App 4000".to_string(), 4000, None, false);
    match a.as_slice() {
        [Action::Download(0, 111, 4000, m, g, false)] => {
            assert_eq!(m, "Mod A");
            assert_eq!(g, "Game");
        }
        other => panic!("unexpected {other:?}"),
    }
    assert!(d.flags.processing);
    assert!(matches!(d.queue.items[0].status, QueueStatus::Downloading));
    assert_eq!(d.queue.items[0].gg_item.as_ref().map(|i| i.name.as_str()), Some("Mod A"));
    assert!(d.queue.items[1].gg_item.is_none());
    assert!(matches!(d.queue.items[1].status, QueueStatus::Queued));
    assert_eq!(d.queue.items[1].gg_available, Some(false));

    let a = d.on_download_done(0, "D:\\Game\\Mod A.zip".to_string(), "Mod A".to_string(), "Game".to_string());
    assert!(matches!(a.as_slice(), [Action::Download(1, 222, 4000, _, _, false)]));
    assert!(matches!(d.queue.items[0].status, QueueStatus::Done));
    assert_eq!(d.queue.items[0].download_path.as_deref(), Some("D:\\Game\\Mod A.zip"));

    let a = d.on_download_failed(1, "GGNetwork: not cached".to_string());
    assert!(a.is_empty());
    assert!(!d.flags.processing);
    assert_eq!(failure(&d.queue.items[1].status), Some("GGNetwork: not cached"));
    assert!(d.flags.failed_overlay_open);

    d.dismiss_failed_overlay();
    assert!(!d.flags.failed_overlay_open);
    d.maybe_show_failed_overlay();
    assert!(!d.flags.failed_overlay_open);
}

#[test]
fn steamcmd_retry_runs_failed_items_in_one_session() {
    let mut d = DownloadFlow::new();
    d.enqueue(1, false);
    d.enqueue(2, false);
    d.on_queue_info(1, "One".to_string(), "G".to_string(), 7, None, false);
    d.on_queue_info(2, "Two".to_string(), "G".to_string(), 7, None, false);
    let a = d.try_process_queue();
    assert!(matches!(a.as_slice(), [Action::Download(0, 1, 7, _, _, false)]));
    d.on_download_failed(0, "e1".to_string());
    d.on_download_failed(1, "e2".to_string());
    assert!(d.flags.failed_overlay_open);

    let a = d.retry_failed_with_steamcmd(true, false);
    assert!(matches!(a.as_slice(), [Action::EnsureSteamCmd]));
    assert_eq!(
        d.steamcmd_setup_status.as_deref(),
        Some("SteamCMD is not installed yet — downloading and deploying…")
    );
    assert!(d.retry_failed_with_steamcmd(true, true).is_empty());

    let a = d.on_steamcmd_ensure_done(None);
    match a.as_slice() {
        [Action::SteamCmdBatch(jobs)] => {
            assert_eq!(jobs.len(), 2);
            assert_eq!(jobs[0], (0, 7, 1, "One".to_string(), "G".to_string()));
            assert_eq!(jobs[1], (1, 7, 2, "Two".to_string(), "G".to_string()));
        }
        other => panic!("unexpected {other:?}"),
    }
    assert!(d.flags.force_steamcmd);
    assert!(!d.flags.failed_overlay_open);
    assert!(d.steamcmd_setup_status.is_none());

    d.on_batch_done(&vec![
        (0, Ok(("D:\\G\\One".to_string(), "One".to_string(), "G".to_string()))),
        (1, Err("copy failed".to_string())),
    ]);
    assert!(matches!(d.queue.items[0].status, QueueStatus::Done));
    assert_eq!(failure(&d.queue.items[1].status), Some("None of the download methods worked (GGNetwork + SteamCMD)."));
    assert!(d.flags.steamcmd_exhausted);
    assert!(!d.flags.force_steamcmd);
    assert!(d.flags.failed_overlay_open);
}

#[test]
fn steamcmd_setup_failure_is_reported() {
    let mut d = DownloadFlow::new();
    d.retry_failed_with_steamcmd(true, false);
    let a = d.on_steamcmd_ensure_done(Some("no network".to_string()));
    assert!(a.is_empty());
    assert_eq!(d.steamcmd_setup_status.as_deref(), Some("SteamCMD setup failed: no network"));
    assert!(!d.flags.pending_steamcmd_retry);
    assert!(d.retry_failed_with_steamcmd(false, true).is_empty());
}

#[test]
fn a_batch_item_whose_folder_fails_drops_out() {
    let mut d = DownloadFlow::new();
    d.enqueue(9, false);
    d.flags.force_steamcmd = true;
    let a = d.try_process_queue();
    assert!(matches!(a.as_slice(), [Action::SteamCmdBatch(_)]));
    d.batch_dir_failed(0, "access denied".to_string(), 0);
    assert_eq!(failure(&d.queue.items[0].status), Some("access denied"));
    assert!(!d.flags.processing);
    assert!(!d.flags.force_steamcmd);
    assert!(d.flags.failed_overlay_open);
}

#[test]
fn removing_and_clearing_keep_running_downloads() {
    let mut d = DownloadFlow::new();
    d.enqueue(1, false);
    d.enqueue(2, false);
    d.enqueue(3, false);
    d.try_process_queue();
    assert!(matches!(d.queue.items[0].status, QueueStatus::Downloading));
    d.remove_queue_item(0);
    assert_eq!(d.queue.items.len(), 3);
    d.remove_queue_item(1);
    assert_eq!(d.queue.items.len(), 2);
    assert_eq!(d.queue.items[1].workshop_id, 3);
    d.clear_download_queue();
    assert_eq!(d.queue.items.len(), 1);
    assert_eq!(d.queue.items[0].workshop_id, 1);
}

#[test]
fn polishing_replaces_placeholders() {
    let item = gg("Cool Mod");
    let (m, g) = polish_names(55, "Item 55".to_string(), "App 4000".to_string(), 4000, &Some(item), Some("Garry's Mod".to_string()));
    assert_eq!(m, "Cool Mod");
    assert_eq!(g, "Garry's Mod");
    let (m, g) = polish_names(55, "Named".to_string(), "Real Game".to_string(), 4000, &None, Some("Other".to_string()));
    assert_eq!(m, "Named");
    assert_eq!(g, "Real Game");
    let (m, g) = polish_names(55, "Item 55".to_string(), "Unknown game".to_string(), 0, &Some(gg("  ")), Some("X".to_string()));
    assert_eq!(m, "Item 55");
    assert_eq!(g, "Unknown game");
}

#[test]
fn importing_a_list_queues_each_id_once() {
    let mut d = DownloadFlow::new();
    let text = "https://steamcommunity.com/sharedfiles/filedetails/?id=111\nnot a link\n222\n111\n";
    let (actions, outcome) = d.import_workshop_list(text, true);
    assert_eq!(actions.len(), 2);
    assert!(matches!(actions[0], Action::Resolve(111)));
    assert!(matches!(actions[1], Action::Resolve(222)));
    assert_eq!(outcome, Ok(Some("Imported 2 item(s), skipped 1 invalid line(s).".to_string())));
    assert_eq!(d.queue.items.len(), 2);
    assert!(d.flags.download_when_resolved);

    let (actions, outcome) = d.import_workshop_list("nothing here", false);
    assert!(actions.is_empty());
    assert_eq!(outcome, Err("No valid Workshop URLs or IDs found.".to_string()));
    let (_, outcome) = d.import_workshop_list("  \n", false);
    assert_eq!(outcome, Err("Paste at least one URL or ID per line.".to_string()));
}

#[test]
fn pasting_into_the_window() {
    let mut d = DownloadFlow::new();
    let (a, o) = d.paste_workshop_text("123", true);
    assert!(a.is_empty());
    assert_eq!(o, PasteOutcome::Ignored);
    let (a, o) = d.paste_workshop_text("hello", false);
    assert!(a.is_empty());
    assert_eq!(o, PasteOutcome::Rejected(Some("Clipboard has no valid Workshop URLs or IDs.".to_string())));
    let (a, o) = d.paste_workshop_text("123\r\n456\nbad", true);
    assert_eq!(a.len(), 2);
    assert_eq!(o, PasteOutcome::Added(Some("Added 2 item(s), skipped 1 invalid line(s).".to_string()), true));
    assert!(!d.flags.download_when_resolved);
}

#[test]
fn send_to_checkbox_notices() {
    let mut ui = SendToUi::new(SendToStatus::Stale);
    assert!(ui.enabled && ui.stale);
    ui.on_refresh(Ok(()));
    assert!(!ui.stale);
    assert_eq!(ui.notice, Some(("\"Send to\" is fixed.".to_string(), false)));

    ui.enabled = false;
    ui.on_checkbox_changed(Err("access denied".to_string()));
    assert_eq!(ui.notice, Some(("Couldn't disable Send to: access denied".to_string(), true)));
    ui.on_checkbox_changed(Ok(()));
    assert!(ui.notice.is_none());

    ui.enabled = true;
    ui.on_checkbox_changed(Err("no folder".to_string()));
    assert!(!ui.enabled);
    assert_eq!(ui.notice, Some(("Couldn't enable Send to: no folder".to_string(), true)));
    ui.enabled = true;
    ui.on_checkbox_changed(Ok(()));
    assert_eq!(
        ui.notice,
        Some(("Right-click any game .exe → \"Send to\" → GoldbergDrop.".to_string(), false))
    );
    let ui = SendToUi::new(SendToStatus::Disabled);
    assert!(!ui.enabled && !ui.stale);
}

#[test]
fn install_steamcmd_sets_status_once() {
    let mut flow = DownloadFlow::new();
    let actions = flow.install_steamcmd();
    assert_eq!(actions.len(), 1);
    assert!(matches!(actions[0], Action::EnsureSteamCmd));
    assert_eq!(flow.steamcmd_setup_status.as_deref(), Some("Downloading and deploying SteamCMD…"));
    assert!(flow.steamcmd_busy());
    // Pressed again while installing: nothing more happens.
    assert!(flow.install_steamcmd().is_empty());
    let after = flow.on_steamcmd_ensure_done(Some("no network".to_string()));
    assert!(after.is_empty());
    assert_eq!(flow.steamcmd_setup_status.as_deref(), Some("SteamCMD setup failed: no network"));
    assert!(!flow.steamcmd_busy());
    assert!(goldberg_drop::session::steamcmd_status_is_error("SteamCMD setup failed: no network"));
}

#[test]
fn removing_steamcmd_clears_or_reports() {
    let mut flow = DownloadFlow::new();
    flow.flags.pending_steamcmd_retry = true;
    flow.steamcmd_setup_status = Some("SteamCMD setup failed: x".to_string());
    flow.on_steamcmd_removed(Some("access denied".to_string()));
    assert_eq!(flow.steamcmd_setup_status.as_deref(), Some("Remove failed: access denied"));
    assert!(flow.flags.pending_steamcmd_retry);
    assert!(goldberg_drop::session::steamcmd_status_is_error("Remove failed: access denied"));
    flow.on_steamcmd_removed(None);
    assert_eq!(flow.steamcmd_setup_status, None);
    assert!(!flow.flags.pending_steamcmd_retry);
    assert!(!goldberg_drop::session::steamcmd_status_is_error("Downloading and deploying SteamCMD…"));
}

#[test]
fn failed_overlay_lists_failures_and_offers_retry() {
    let mut d = DownloadFlow::new();
    d.enqueue(1, false);
    d.enqueue(2, false);
    d.on_queue_info(1, "One".to_string(), "G".to_string(), 7, None, false);
    d.on_queue_info(2, "Two".to_string(), "G".to_string(), 7, None, false);
    d.try_process_queue();
    d.on_download_failed(0, "e1".to_string());
    let o = d.failed_overlay(true).expect("a failure is listed");
    assert_eq!(o.rows, vec![("One".to_string(), "G".to_string(), 1)]);
    assert!(o.retry_offered);
    assert!(o.retry_enabled);
    assert!(!o.exhausted);
    assert_eq!(o.status, None);
    // Without SteamCMD no retry is offered.
    assert!(!d.failed_overlay(false).expect("still listed").retry_offered);
    // While SteamCMD is installed for a retry, the button waits and the
    // progress shows.
    d.retry_failed_with_steamcmd(true, false);
    d.flags.failed_overlay_open = true;
    let o = d.failed_overlay(true).expect("still listed");
    assert!(!o.retry_enabled);
    assert_eq!(o.status.as_deref(), Some("SteamCMD is not installed yet — downloading and deploying…"));
}

#[test]
fn failed_overlay_closes_without_failures() {
    let mut d = DownloadFlow::new();
    d.enqueue(1, false);
    d.flags.failed_overlay_open = true;
    assert!(d.failed_overlay(true).is_none());
    assert!(!d.flags.failed_overlay_open);
}

#[test]
fn rows_show_status_hints_and_buttons() {
    let item = |status: QueueStatus, gg: Option<bool>, path: Option<&str>| QueueItem {
        workshop_id: 5,
        mod_name: "M".to_string(),
        game_app_id: 7,
        game_name: "G".to_string(),
        status,
        gg_item: None,
        gg_available: gg,
        download_path: path.map(|p| p.to_string()),
    };
    assert_eq!(status_hint_text(&item(QueueStatus::Queued, Some(false), None)), "Not available on GGNetwork");
    assert_eq!(status_hint_text(&item(QueueStatus::Queued, None, None)), "Queued");
    assert_eq!(status_hint_text(&item(QueueStatus::Downloading, Some(true), None)), "Downloading");
    assert_eq!(status_hint_text(&item(QueueStatus::Done, Some(true), Some("D:\\x"))), "Done");
    assert_eq!(status_hint_text(&item(QueueStatus::Failed("boom".to_string()), None, None)), "boom");
    assert_eq!(row_button(&item(QueueStatus::Done, None, Some("D:\\x"))), RowButton::OpenFolder);
    assert_eq!(row_button(&item(QueueStatus::Done, None, None)), RowButton::Nothing);
    assert_eq!(row_button(&item(QueueStatus::Queued, None, None)), RowButton::Remove);
    assert_eq!(row_button(&item(QueueStatus::Failed("e".to_string()), None, None)), RowButton::Remove);
    assert_eq!(row_button(&item(QueueStatus::Downloading, None, None)), RowButton::Nothing);
}

#[test]
fn url_field_queues_a_link_or_refuses() {
    let mut d = DownloadFlow::new();
    assert!(!d.can_start());
    assert!(!d.can_clear());
    let (a, err) = d.enqueue_url("  nonsense  ", false);
    assert!(a.is_empty());
    assert_eq!(err.as_deref(), Some("Invalid Workshop URL or ID."));
    assert!(d.queue.items.is_empty());
    let (a, err) = d.enqueue_url(" https://steamcommunity.com/sharedfiles/filedetails/?id=123456 ", true);
    assert!(err.is_none());
    assert!(matches!(a.as_slice(), [Action::Resolve(123456)]));
    assert_eq!(d.queue.items.len(), 1);
    assert!(d.flags.download_when_resolved);
    assert!(d.can_start());
    assert!(d.can_clear());
    d.flags.processing = true;
    assert!(!d.can_start());
}
