use goldberg_drop::models::{GgItemResponse, PublishedFileDetailsItem, PublishedFileMeta};
use goldberg_drop::workshop::{
    decode_html_entities, enrich_from_published_meta, fetch_workshop_page_info, enrich_from_steam, extract_cdn_url,
    fetch_published_file_details, folder_name_is_cuttable, game_download_dir, gg_page_url,
    is_weak, looks_like_binary, normalize_to_id_list, parse_workshop_id, parse_workshop_id_list,
    resolve_gg, resolve_queue_info, sanitize_file_name, sanitize_folder_name,
};

fn gg(result: u32, game: &str, name: &str) -> GgItemResponse {
    GgItemResponse {
        result,
        id: "1".to_string(),
        game: game.to_string(),
        name: name.to_string(),
        size: None,
        download: None,
    }
}

#[test]
fn parse_workshop_url() {
    assert_eq!(
        parse_workshop_id("https://steamcommunity.com/sharedfiles/filedetails/?id=1710929351"),
        Some(1710929351)
    );
    assert_eq!(parse_workshop_id("1710929351"), Some(1710929351));
    assert_eq!(
        parse_workshop_id("https://ggntw.com/steam/1710929351"),
        Some(1710929351)
    );
    assert_eq!(parse_workshop_id("not a url"), None);
}

#[test]
fn parse_workshop_id_list_mixed() {
    let text = "\
1710929351
https://steamcommunity.com/sharedfiles/filedetails/?id=222
https://ggntw.com/steam/333
not-valid
1710929351
";
    let (ids, skipped) = parse_workshop_id_list(text);
    assert_eq!(ids, vec![1710929351, 222, 333]);
    assert_eq!(skipped, 1);
}

#[test]
fn normalize_to_id_list_strips_urls() {
    let text = "https://steamcommunity.com/sharedfiles/filedetails/?id=111\n222\n";
    assert_eq!(normalize_to_id_list(text).as_deref(), Some("111\n222\n"));
    assert_eq!(normalize_to_id_list("nope"), None);
}

#[test]
fn sanitize_replaces_illegal_chars() {
    assert!(folder_name_is_cuttable(r#"Test: Game?"#));
    assert_eq!(sanitize_folder_name(r#"Test: Game?"#), "Test_ Game_");
    assert_eq!(sanitize_folder_name(""), "Unknown");
}

#[test]
fn ids_are_read_from_padded_and_separated_text() {
    assert_eq!(parse_workshop_id("  ,123;| "), Some(123));
    assert_eq!(parse_workshop_id("+77"), Some(77));
    assert_eq!(parse_workshop_id("https://x/?foo=1&id=42"), Some(42));
    assert_eq!(parse_workshop_id("https://x/?pid=42"), None);
    assert_eq!(parse_workshop_id("FILEDETAILS/?ID=9"), Some(9));
    assert_eq!(parse_workshop_id("GGNTW.COM/Steam/8"), Some(8));
    assert_eq!(parse_workshop_id("18446744073709551616"), None);
    assert_eq!(parse_workshop_id(",;|"), None);
}

#[test]
fn a_normalized_list_reads_back_unchanged() {
    let text = "https://ggntw.com/steam/5\n\n  7 \nbad\nhttps://steamcommunity.com/sharedfiles/filedetails/?id=5\n";
    let (ids, skipped) = parse_workshop_id_list(text);
    assert_eq!(ids, vec![5, 7]);
    assert_eq!(skipped, 1);
    let normalized = normalize_to_id_list(text).unwrap();
    assert_eq!(normalized, "5\n7\n");
    assert_eq!(parse_workshop_id_list(&normalized), (vec![5, 7], 0));
}

#[test]
fn folder_names_are_trimmed_cut_and_defaulted() {
    assert_eq!(sanitize_folder_name("  My Mod...  "), "My Mod");
    assert_eq!(sanitize_folder_name("a\u{7}b"), "a_b");
    assert_eq!(sanitize_folder_name(" . "), "Unknown");
    let long = "x".repeat(79) + " yz";
    assert!(folder_name_is_cuttable(&long));
    assert_eq!(sanitize_folder_name(&long), "x".repeat(79));
    let wide = "a".repeat(79) + "é";
    assert!(!folder_name_is_cuttable(&wide));
    assert_eq!(sanitize_file_name("Cool Mod"), "Cool Mod.zip");
    assert_eq!(sanitize_file_name("mod.7z"), "mod.7z");
    assert_eq!(game_download_dir("C:\\Downloads", "Game: X"), "C:\\Downloads\\Game_ X");
    assert_eq!(game_download_dir("C:\\Downloads\\", "G"), "C:\\Downloads\\G");
}

#[test]
fn gg_page_and_entities() {
    assert_eq!(gg_page_url(42), "https://ggntw.com/steam/42");
    assert_eq!(parse_workshop_id(&gg_page_url(42)), Some(42));
    assert_eq!(
        decode_html_entities("A &amp;lt; &lt;b&gt; &quot;c&quot; &#39;d&#39;&nbsp;e"),
        "A < <b> \"c\" 'd' e"
    );
}

#[test]
fn cdn_links_and_binary_bodies() {
    let html = "<a href=\"https://x.com/a\">x</a> <a href='https://files.cdn.ggntw.com/m/1.zip?t=2'>go</a>";
    assert_eq!(
        extract_cdn_url(html).as_deref(),
        Some("https://files.cdn.ggntw.com/m/1.zip?t=2")
    );
    assert_eq!(extract_cdn_url("http://cdn.ggntw.ru/f x").as_deref(), Some("http://cdn.ggntw.ru/f"));
    assert_eq!(extract_cdn_url("https://cdn.ggntw.org/f"), None);
    assert!(!looks_like_binary("text/html; charset=utf-8", b"PK"));
    assert!(looks_like_binary("application/zip", b"<html>"));
    assert!(looks_like_binary("", b"PK\x03\x04"));
    assert!(!looks_like_binary("", b"<!doctype html>"));
}

#[test]
fn gg_answers_resolve_names() {
    let (m, g, app, item, ok) = resolve_gg(9, Some(gg(1, "751780", "Fast Crafting")));
    assert_eq!((m.as_str(), g.as_str(), app, ok), ("Fast Crafting", "App 751780", 751780, true));
    assert!(item.is_some());
    let (m, g, app, item, ok) = resolve_gg(9, Some(gg(0, "x", "  ")));
    assert_eq!((m.as_str(), g.as_str(), app, ok), ("Item 9", "Unknown game", 0, false));
    assert!(item.is_some());
    let (m, g, app, item, ok) = resolve_gg(9, None);
    assert_eq!((m.as_str(), g.as_str(), app, ok), ("Item 9", "Unknown game", 0, false));
    assert!(item.is_none());
    assert!(is_weak(9, "Item 9", "Forager"));
    assert!(is_weak(9, "M", "App 3"));
    assert!(!is_weak(9, "M", "Forager"));
}

#[test]
fn enrichment_fills_weak_fields() {
    let meta = PublishedFileMeta { title: "Fast Crafting".to_string(), app_id: 751780 };
    assert_eq!(
        enrich_from_published_meta(9, "Item 9".into(), "Unknown game".into(), 0, Some(&meta)),
        ("Fast Crafting".to_string(), "App 751780".to_string(), 751780)
    );
    assert_eq!(
        enrich_from_published_meta(9, "Mine".into(), "Forager".into(), 5, Some(&meta)),
        ("Mine".to_string(), "Forager".to_string(), 5)
    );
    assert_eq!(
        enrich_from_steam(9, "Item 9".into(), "App 5".into(), 5, Some(("T".into(), Some("Forager".into()), None))),
        ("T".to_string(), "Forager".to_string(), 5)
    );
    assert_eq!(
        enrich_from_steam(9, "M".into(), "G".into(), 5, None),
        ("M".to_string(), "G".to_string(), 5)
    );
    let (m, g, item, ok) = resolve_queue_info(
        1974431336,
        Some(gg(0, "", "")),
        Some(meta.clone()),
        Some(("Fast Crafting".into(), Some("Forager".into()), Some(751780))),
    );
    assert_eq!((m.as_str(), g.as_str(), ok), ("Fast Crafting", "Forager", false));
    assert_eq!(item.unwrap().result, 0);
    let (m, g, _, _) = resolve_queue_info(3, None, None, Some(("".into(), None, Some(8))));
    assert_eq!((m.as_str(), g.as_str()), ("Item 3", "App 8"));
}

#[test]
fn published_details_keep_valid_rows() {
    let row = |id: &str, result: u32, title: &str, consumer: u32, creator: u32| PublishedFileDetailsItem {
        publishedfileid: id.to_string(),
        result,
        title: title.to_string(),
        consumer_app_id: consumer,
        creator_app_id: creator,
    };
    let map = fetch_published_file_details(&vec![
        row("1974431336", 1, " Fast Crafting ", 751780, 1),
        row("2", 9, "Gone", 1, 1),
        row("x", 1, "Bad id", 1, 1),
        row("3", 1, "", 0, 0),
        row("4", 1, "", 0, 99),
    ]);
    assert_eq!(map.len(), 2);
    assert_eq!(map[&1974431336].title, "Fast Crafting");
    assert_eq!(map[&1974431336].app_id, 751780);
    assert_eq!(map[&4].app_id, 99);
}

#[test]
fn workshop_pages_give_title_game_and_app() {
    let html = r#"<html><head><title>Steam Workshop::Ignored</title></head>
<div class="apphub_AppName ellipsis">Forager</div>
<a href="https://steamcommunity.com/app/751780">hub</a>
<div class="workshopItemTitle">Fast &amp; Crafting </div>"#;
    let (t, g, a) = fetch_workshop_page_info(html).unwrap();
    assert_eq!(t, "Fast & Crafting");
    assert_eq!(g.as_deref(), Some("Forager"));
    assert_eq!(a, Some(751780));
    let fallback = "<TITLE> Steam Workshop::CylunderTown  </title> data-appid=\"99\"";
    let (t, g, a) = fetch_workshop_page_info(fallback).unwrap();
    assert_eq!(t, "CylunderTown");
    assert_eq!(g, None);
    assert_eq!(a, Some(99));
    assert!(fetch_workshop_page_info("<title>Nothing</title>").is_none());
    let big = "store.steampowered.com/app/99999999999 steamcommunity.com/app/x data-appid=\"7\" <div class=\"x workshopItemTitle\">T</div>";
    assert_eq!(fetch_workshop_page_info(big).unwrap().2, Some(7));
}

#[test]
fn normalizing_twice_is_normalizing_once() {
    let once = normalize_to_id_list("https://steamcommunity.com/sharedfiles/filedetails/?id=42\n  7,\nnope\n42\n")
        .expect("ids");
    assert_eq!(once, "42\n7\n");
    assert_eq!(normalize_to_id_list(&once), Some(once.clone()));
}
