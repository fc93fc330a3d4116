use goldberg_drop::goldberg::{apply_setup, appid_text, find_dll_directories, swap_backup_name, SetupStep};

fn step_text(s: &SetupStep) -> String {
    match s {
        SetupStep::WriteConfig(d) => format!("cfg {d}"),
        SetupStep::SwapDll(d, n) => format!("swap {d} {n}"),
    }
}

#[test]
fn finds_dll_directly_in_game_dir() {
    let game_dir = "C:\\Temp\\goldberg_drop_test_direct";
    let files = vec![format!("{game_dir}\\steam_api64.dll")];
    assert_eq!(find_dll_directories(&files), vec![game_dir.to_string()]);
}

#[test]
fn finds_dll_in_nested_subfolder() {
    let game_dir = "C:\\Temp\\goldberg_drop_test_nested";
    let nested = format!("{game_dir}\\Binaries\\Win64");
    let files = vec![format!("{nested}\\steam_api64.dll")];
    assert_eq!(find_dll_directories(&files), vec![nested]);
}

#[test]
fn returns_empty_when_no_dll_anywhere() {
    let files = vec!["C:\\Temp\\goldberg_drop_test_none\\Game.exe".to_string()];
    assert!(find_dll_directories(&files).is_empty());
}

#[test]
fn apply_setup_swaps_nested_dll_and_writes_config_beside_it() {
    let game_dir = "C:\\Temp\\goldberg_drop_test_apply_nested";
    let nested = format!("{game_dir}\\Binaries\\Win64");
    let files = vec![format!("{nested}\\steam_api64.dll")];
    let dirs: Vec<(String, bool, bool)> = find_dll_directories(&files).into_iter().map(|d| (d, false, true)).collect();
    let (steps, swapped) = apply_setup(game_dir, &dirs);
    assert!(swapped);
    let texts: Vec<String> = steps.iter().map(step_text).collect();
    assert_eq!(
        texts,
        vec![format!("cfg {game_dir}"), format!("cfg {nested}"), format!("swap {nested} steam_api64")]
    );
    assert_eq!(appid_text(4169770), "4169770");
    assert_eq!(swap_backup_name("steam_api64", false), ("steam_api64_o.dll".to_string(), false));
}

#[test]
fn apply_setup_is_config_only_when_no_dll_found() {
    let game_dir = "C:\\Temp\\goldberg_drop_test_apply_none";
    let (steps, swapped) = apply_setup(game_dir, &vec![]);
    assert!(!swapped);
    let texts: Vec<String> = steps.iter().map(step_text).collect();
    assert_eq!(texts, vec![format!("cfg {game_dir}")]);
}
