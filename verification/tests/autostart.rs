use goldberg_drop::autostart::{format_run_command, shortcut_hint, strip_unc_prefix, RunKey};

#[test]
fn strips_unc_prefix() {
    assert_eq!(
        strip_unc_prefix(r"\\?\C:\Games\1. GB\app.exe"),
        r"C:\Games\1. GB\app.exe".to_string()
    );
    assert_eq!(strip_unc_prefix(r"C:\Games\app.exe"), r"C:\Games\app.exe".to_string());
}

#[test]
fn run_command_quotes_spaces() {
    let cmd = format_run_command(r"C:\Games\1. GB\goldberg-drop.exe");
    assert_eq!(cmd, r#""C:\Games\1. GB\goldberg-drop.exe" --tray"#);
    assert!(!cmd.contains(r"\\?\"));
}

#[test]
fn enabling_writes_a_command_that_needs_no_refresh() {
    let mut key = RunKey { goldberg: None, steam: Some("\"C:\\Steam\\steam.exe\" -silent".to_string()) };
    assert!(!key.is_enabled());
    assert!(!key.ensure_gbd_run_valid(r"C:\Apps\gd.exe"));
    key.enable(r"\\?\C:\Apps\gd.exe");
    assert!(key.is_enabled());
    assert_eq!(key.goldberg.as_deref(), Some(r#""C:\Apps\gd.exe" --tray"#));
    assert!(!key.ensure_gbd_run_valid(r"\\?\C:\Apps\gd.exe"));
    assert!(key.ensure_gbd_run_valid(r"D:\Moved\gd.exe"));
    assert_eq!(key.goldberg.as_deref(), Some(r#""D:\Moved\gd.exe" --tray"#));
    assert!(!key.ensure_gbd_run_valid(r"D:\Moved\gd.exe"));
    key.disable();
    assert!(!key.is_enabled());
    assert_eq!(key.read_steam_run().as_deref(), Some("\"C:\\Steam\\steam.exe\" -silent"));
}

#[test]
fn steam_value_is_set_aside_and_restored() {
    let mut key = RunKey { goldberg: None, steam: Some("steam -silent".to_string()) };
    let saved = key.read_steam_run().unwrap();
    key.delete_steam_run();
    assert!(key.read_steam_run().is_none());
    key.write_steam_run(&saved);
    assert_eq!(key.read_steam_run().as_deref(), Some("steam -silent"));
    assert!(shortcut_hint().ends_with("GoldbergDrop"));
}
