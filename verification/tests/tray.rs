use goldberg_drop::games::TrackedGame;
use goldberg_drop::tray::{
    enable, enable_windows_dark_menus, game_menu_id, menu_action, menu_entries,
    should_use_dark_mode, DarkMenuCall, MenuAction, MenuEntry, PreferredAppMode, TrayCmd, WindowCmd, WindowState,
};

fn ids(entries: &[MenuEntry]) -> Vec<String> {
    entries
        .iter()
        .map(|e| match e {
            MenuEntry::Separator => "-".to_string(),
            MenuEntry::Item(id, _, _, _) => id.clone(),
        })
        .collect()
}

#[test]
fn menu_lists_games_between_separators() {
    let games = vec![TrackedGame {
        app_id: 620,
        name: "Portal 2".into(),
        exe_path: "C:\\P2\\portal2.exe".into(),
        icon_path: None,
    }];
    assert_eq!(ids(&menu_entries(&games, true)), vec!["open", "-", "steam_greenluma", "steam_plain", "-", "game_620", "-", "quit"]);
    let empty = menu_entries(&vec![], false);
    assert_eq!(ids(&empty), vec!["open", "-", "empty", "-", "quit"]);
    match &empty[2] {
        MenuEntry::Item(_, label, enabled, _) => {
            assert_eq!(label, "No games tracked yet");
            assert!(!enabled);
        }
        MenuEntry::Separator => panic!("expected the note"),
    }
}

#[test]
fn menu_ids_map_to_actions() {
    assert_eq!(menu_action("open"), MenuAction::ShowWindow);
    assert_eq!(menu_action("quit"), MenuAction::Quit);
    assert_eq!(menu_action("steam_plain"), MenuAction::StartSteamPlain);
    assert_eq!(menu_action("steam_greenluma"), MenuAction::StartSteamGreenLuma);
    assert_eq!(menu_action(&game_menu_id(4262310)), MenuAction::LaunchGame(4262310));
    assert_eq!(menu_action("game_x"), MenuAction::Nothing);
    assert_eq!(menu_action("empty"), MenuAction::Nothing);
}

#[test]
fn dark_menus_follow_the_build() {
    assert!(should_use_dark_mode(Some(false), Some(false)));
    assert!(!should_use_dark_mode(Some(true), Some(true)));
    assert!(should_use_dark_mode(None, Some(true)));
    assert!(!should_use_dark_mode(None, None));
    assert_eq!(enable(17134, true), DarkMenuCall::Unsupported);
    assert_eq!(enable(17763, true), DarkMenuCall::AllowDarkModeForApp(true));
    assert_eq!(enable(19045, false), DarkMenuCall::SetPreferredAppMode(PreferredAppMode::Default));
    assert_eq!(
        enable_windows_dark_menus(0xF000_0000 | 22631, Some(false), None),
        DarkMenuCall::SetPreferredAppMode(PreferredAppMode::AllowDark)
    );
}

#[test]
fn window_hides_to_tray_after_notice_and_comes_back() {
    let mut w = WindowState::at_start(false, false);
    assert!(!w.dormant);
    assert_eq!(w.on_close_clicked(true), WindowCmd::Keep);
    assert!(w.notice);
    assert_eq!(w.on_notice_elapsed(), WindowCmd::Hide);
    assert_eq!(w, WindowState { dormant: true, notice: false });
    assert_eq!(w.on_notice_elapsed(), WindowCmd::Keep);
    assert_eq!(w.on_tray_cmd(&TrayCmd::LaunchGame(4000)), WindowCmd::Keep);
    assert!(w.dormant);
    assert_eq!(w.on_tray_cmd(&TrayCmd::ShowWindow), WindowCmd::Show);
    assert_eq!(w, WindowState { dormant: false, notice: false });
    assert_eq!(w.on_close_clicked(false), WindowCmd::Close);
    assert_eq!(w.on_tray_cmd(&TrayCmd::Quit), WindowCmd::Close);
}

#[test]
fn window_starts_dormant_only_for_tray_without_file() {
    assert!(WindowState::at_start(true, false).dormant);
    assert!(!WindowState::at_start(true, true).dormant);
    assert!(!WindowState::at_start(false, false).dormant);
}
