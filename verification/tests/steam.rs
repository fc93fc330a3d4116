use goldberg_drop::models::{AppDetailsData, AppDetailsEnvelope, SteamApp, StoreSearchItem, StoreSearchResponse};
use goldberg_drop::steam::{
    build_search_terms, find_app_by_exe, get_achievements, get_app_name, get_dlc_list,
    parse_community_achievement_rows, search_step, store_search, AppSearchOutcome,
};

fn app(id: u32, name: &str) -> SteamApp {
    SteamApp { app_id: id, name: name.to_string() }
}

#[test]
fn parse_community_rows_and_entities() {
    let html = r#"
<div class="achieveRow ">
  <div class="achieveImgHolder">
    <img src="https://example.com/a.jpg" width="64" height="64" border="0" />
  </div>
  <div class="achieveTxt">
    <h3>Title &amp; More</h3>
    <h5>Desc &#039;ok&#039;</h5>
  </div>
</div>
<div class="achieveRow ">
  <img src="https://example.com/b.jpg" />
  <h3>Second</h3>
  <h5></h5>
</div>
"#;
    let rows = parse_community_achievement_rows(html);
    assert_eq!(rows.len(), 2);
    assert_eq!(rows[0].display_name, "Title & More");
    assert_eq!(rows[0].description, "Desc 'ok'");
    assert_eq!(rows[0].icon, "https://example.com/a.jpg");
    assert_eq!(rows[1].display_name, "Second");
    assert!(rows[1].description.is_empty());
}

#[test]
fn rows_skip_images_without_source() {
    let html = "<div class=\"achieveRow\"><img src=\"\"><img src=\"i.png\"><h3> A </h3><h5>B &apos;x&apos;</h5></div><div class=\"achieveRow\"><h3>no image</h3><h5>d</h5>";
    let rows = parse_community_achievement_rows(html);
    assert_eq!(rows.len(), 1);
    assert_eq!(rows[0].icon, "i.png");
    assert_eq!(rows[0].display_name, "A");
    assert_eq!(rows[0].description, "B 'x'");
    let achievements = get_achievements(&vec!["ACH_A".to_string(), "ACH_B".to_string()], &rows);
    assert_eq!(achievements.len(), 1);
    assert_eq!(achievements[0].name, "ACH_A");
    assert_eq!(achievements[0].hidden, "0");
    assert_eq!(achievements[0].icongray, "i.png");
}

#[test]
fn search_terms_in_order_without_repeats() {
    assert_eq!(
        build_search_terms("C:\\Games\\Hades\\Hades.exe"),
        vec!["Hades".to_string(), "C:\\Games\\Hades\\Hades.exe".to_string()]
    );
    assert_eq!(
        build_search_terms("C:\\Games\\Orb\\Game.exe"),
        vec!["Game".to_string(), "Orb".to_string(), "C:\\Games\\Orb\\Game.exe".to_string()]
    );
}

#[test]
fn store_search_keeps_apps() {
    let response = StoreSearchResponse {
        items: vec![
            StoreSearchItem { item_type: "APP".into(), id: 1, name: "One".into() },
            StoreSearchItem { item_type: "dlc".into(), id: 2, name: "Two".into() },
        ],
    };
    let apps = store_search("one", &response);
    assert_eq!(apps.len(), 1);
    assert_eq!(apps[0].app_id, 1);
    assert!(store_search("   ", &response).is_empty());
}

#[test]
fn search_outcomes() {
    assert!(search_step("x", vec![]).is_none());
    match search_step("x", vec![app(1, "Other")]) {
        Some(AppSearchOutcome::Found(a)) => assert_eq!(a.app_id, 1),
        _ => panic!("expected the only hit"),
    }
    match search_step("hades", vec![app(1, "Hades II"), app(2, "HADES")]) {
        Some(AppSearchOutcome::Found(a)) => assert_eq!(a.app_id, 2),
        _ => panic!("expected the exact name"),
    }
    match search_step("hades", vec![app(1, "Hades II"), app(3, "Hadesx")]) {
        Some(AppSearchOutcome::Ambiguous(v)) => assert_eq!(v.len(), 2),
        _ => panic!("expected a choice"),
    }
    let tried = vec![("a".to_string(), vec![]), ("b".to_string(), vec![app(7, "B")])];
    match find_app_by_exe(tried) {
        AppSearchOutcome::Found(a) => assert_eq!(a.app_id, 7),
        _ => panic!("expected the second term's hit"),
    }
    assert!(matches!(find_app_by_exe(vec![("a".to_string(), vec![])]), AppSearchOutcome::NotFound));
}

#[test]
fn app_details_names_and_dlcs() {
    let details = Some(AppDetailsEnvelope {
        success: true,
        data: Some(AppDetailsData { name: Some("Game".into()), dlc: vec![10, 11] }),
    });
    assert_eq!(get_app_name(&details).as_deref(), Some("Game"));
    let failed = Some(AppDetailsEnvelope { success: false, data: None });
    assert_eq!(get_app_name(&failed), None);
    let dlcs = get_dlc_list(&details, &vec![Some("Extra".into())]);
    assert_eq!(dlcs.len(), 2);
    assert_eq!((dlcs[0].app_id, dlcs[0].name.as_str()), (10, "Extra"));
    assert_eq!((dlcs[1].app_id, dlcs[1].name.as_str()), (11, "Unknown DLC 11"));
    assert!(get_dlc_list(&None, &vec![]).is_empty());
}

#[test]
fn an_executable_in_a_drive_root_gives_no_folder_term() {
    assert_eq!(build_search_terms("C:\\a.exe"), vec!["a".to_string(), "C:\\a.exe".to_string()]);
    assert_eq!(build_search_terms("D:/Game.exe"), vec!["Game".to_string(), "D:/Game.exe".to_string()]);
}
