use goldberg_drop::sendto::{
    disable, disable_greenluma, enable, enable_greenluma, paths_match, status, status_greenluma,
    SendToStatus,
};

#[test]
fn identical_paths_match() {
    let p = r"C:\Games\Foo\GoldbergDrop.exe".to_string();
    assert!(paths_match(&p, &p.clone(), None, None));
}

#[test]
fn different_paths_do_not_match() {
    let a = r"C:\Games\Foo\GoldbergDrop.exe";
    let b = r"D:\Tools\GoldbergDrop.exe";
    assert!(!paths_match(a, b, None, None));
}

#[test]
fn canonical_forms_decide_when_known() {
    assert!(paths_match("a", "b", Some("C:\\x"), Some("C:\\x")));
    assert!(!paths_match("a", "a", Some("C:\\x"), Some("C:\\y")));
    assert!(paths_match("a", "a", Some("C:\\x"), None));
}

#[test]
fn enabled_entries_report_enabled_then_stale_when_moved() {
    let (state, plan) = enable(r"C:\Apps\gd.exe");
    assert_eq!(plan.lnk_name, "GoldbergDrop.lnk");
    assert!(plan.arguments.is_none());
    assert_eq!(status(&state, Some(r"C:\Apps\gd.exe"), None, None), SendToStatus::Enabled);
    assert_eq!(status(&state, Some(r"D:\gd.exe"), None, None), SendToStatus::Stale);
    assert_eq!(status(&state, None, None, None), SendToStatus::Stale);
    let (off, lnk) = disable();
    assert_eq!(lnk, "GoldbergDrop.lnk");
    assert_eq!(status(&off, Some(r"C:\Apps\gd.exe"), None, None), SendToStatus::Disabled);
    let (gl, plan) = enable_greenluma(r"C:\Apps\gd.exe");
    assert_eq!(plan.lnk_name, "GoldbergDrop (GreenLuma).lnk");
    assert_eq!(plan.arguments.as_deref(), Some("--greenluma"));
    assert_eq!(status_greenluma(&gl, Some(r"C:\Apps\gd.exe"), None, None), SendToStatus::Enabled);
    let (gl_off, lnk) = disable_greenluma();
    assert_eq!(lnk, "GoldbergDrop (GreenLuma).lnk");
    assert_eq!(status_greenluma(&gl_off, None, None, None), SendToStatus::Disabled);
}

#[test]
fn greenluma_entry_leaves_the_plain_entry_alone() {
    let plain = enable("C:\\GD\\GoldbergDrop.exe").0;
    let (gl_state, gl_plan) = enable_greenluma("C:\\GD\\GoldbergDrop.exe");
    assert_ne!(gl_plan.lnk_name, "GoldbergDrop.lnk");
    assert_eq!(disable_greenluma().1, "GoldbergDrop (GreenLuma).lnk");
    assert!(gl_state.enabled);
    let exe = "C:\\GD\\GoldbergDrop.exe";
    assert_eq!(status(&plain, Some(exe), None, None), SendToStatus::Enabled);
    assert_eq!(status_greenluma(&disable_greenluma().0, Some(exe), None, None), SendToStatus::Disabled);
    assert_eq!(status(&plain, Some(exe), None, None), SendToStatus::Enabled);
}
