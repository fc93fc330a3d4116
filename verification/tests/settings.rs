use goldberg_drop::logging::{log_path, needs_rotation, previous_log_path};
use goldberg_drop::settings::{AppSettings, SettingsTab};

#[test]
fn defaults_and_download_roots() {
    let s = AppSettings::default();
    assert!(s.use_ggnetwork && s.use_steamcmd && s.ask_before_steamcmd && s.close_to_tray);
    assert!(!s.autostart_tray);
    assert_eq!(SettingsTab::default(), SettingsTab::Download);
    assert_eq!(s.workshop_root("C:\\GD"), "C:\\GD\\WorkshopDownloads");
    assert_eq!(s.display_workshop_root(None), "(unavailable)");
    assert_eq!(s.game_download_dir("C:\\GD", "Orb: Hail"), "C:\\GD\\WorkshopDownloads\\Orb_ Hail");
    let mut chosen = AppSettings::default();
    chosen.workshop_download_dir = Some("E:\\Mods".to_string());
    assert_eq!(chosen.workshop_root("C:\\GD"), "E:\\Mods");
    assert_eq!(chosen.display_workshop_root(None), "E:\\Mods");
    chosen.workshop_download_dir = Some(String::new());
    assert_eq!(chosen.workshop_root("C:\\GD"), "C:\\GD\\WorkshopDownloads");
    assert_eq!(AppSettings::steamcmd_exe("C:\\Data"), "C:\\Data\\steamcmd\\steamcmd.exe");
}

#[test]
fn log_files() {
    assert_eq!(log_path("C:\\Data"), "C:\\Data\\debug.log");
    assert_eq!(previous_log_path("C:\\Data\\"), "C:\\Data\\debug.prev.log");
    assert!(!needs_rotation(2 * 1024 * 1024 - 1));
    assert!(needs_rotation(2 * 1024 * 1024));
}
