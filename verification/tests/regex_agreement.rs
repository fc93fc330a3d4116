//! The library's pattern matchers agree with the `regex` crate on the
//! expressions the program uses, over inputs with tricky spacing, case
//! folding and Unicode digits.

use goldberg_drop::applist::read_ids_from_dir;
use goldberg_drop::emulator::find_job_artifact;
use goldberg_drop::greenluma::{library_paths, parse_acf};
use goldberg_drop::steam::{build_search_terms, parse_community_achievement_rows};
use goldberg_drop::workshop::{
    extract_cdn_url, fetch_workshop_page_info, folder_name_is_cuttable, parse_workshop_id,
    sanitize_folder_name,
};
use regex::Regex;
use std::path::Path;

fn reference_workshop_id(input: &str) -> Option<u64> {
    let trimmed = input.trim().trim_matches(|c: char| matches!(c, ',' | ';' | '|'));
    if trimmed.is_empty() {
        return None;
    }
    if let Ok(id) = trimmed.parse::<u64>() {
        return Some(id);
    }
    let re = Regex::new(r"(?i)filedetails/\?id=(\d+)").ok()?;
    if let Some(caps) = re.captures(trimmed) {
        return caps.get(1)?.as_str().parse().ok();
    }
    let re_gg = Regex::new(r"(?i)ggntw\.com/steam/(\d+)").ok()?;
    if let Some(caps) = re_gg.captures(trimmed) {
        return caps.get(1)?.as_str().parse().ok();
    }
    let re_id = Regex::new(r"\bid=(\d+)").ok()?;
    if let Some(caps) = re_id.captures(trimmed) {
        return caps.get(1)?.as_str().parse().ok();
    }
    None
}

#[test]
fn workshop_ids_agree_with_regex() {
    let inputs = [
        "https://steamcommunity.com/sharedfiles/filedetails/?id=1710929351",
        "FileDetails/?ID=12&id=13",
        "fileDetail\u{17f}/?id=5",
        "filedetails/?id=\u{0663}\u{0664}",
        "filedetails/?id=x ggntw.com/steam/4",
        "https://ggntw.com/steam/99999999999999999999",
        "GGNTW.COM/STEAM/7?id=8",
        "a.id=3",
        "aid=3",
        "_id=3",
        "éid=3",
        "?id=\u{0663}",
        "\u{a0}\u{2003}42\u{3000}",
        "|;,+18446744073709551615,;",
        "18446744073709551616",
        "-5",
        "",
        "   ",
        "id=",
        "x id=1 id=2",
    ];
    for input in inputs {
        assert_eq!(parse_workshop_id(input), reference_workshop_id(input), "input {input:?}");
    }
}

#[test]
fn library_paths_agree_with_regex() {
    let re = Regex::new(r#"(?i)"path"\s+"([^"]+)""#).unwrap();
    let texts = [
        "\"path\"\t\t\"C:\\\\Steam\"\n\"PATH\" \"D:\\\\x\" \"path\" \"\" \"path\"\u{85}\"E\"",
        "\"paTh\"\"x\" \"path\"  \"a\"\"path\" \"b\"",
        "\"path\" \"unterminated",
    ];
    for text in texts {
        let expected: Vec<String> = re.captures_iter(text).map(|c| c[1].replace("\\\\", "\\")).collect();
        assert_eq!(library_paths(text), expected, "text {text:?}");
    }
}

#[test]
fn achievement_rows_agree_with_regex() {
    let re = Regex::new(
        r#"(?s)<div class="achieveRow[^"]*">.*?<img src="([^"]+)".*?<h3>(.*?)</h3>.*?<h5>(.*?)</h5>"#,
    )
    .unwrap();
    let pages = [
        "<div class=\"achieveRow \"><img src=\"a\"><h3>A</h3><h5>B</h5></div><div class=\"achieveRow\"><img src=\"\"><img src=\"c\"><h3> C &amp; </h3><h5></h5>",
        "<div class=\"achieveRow x\">\n<h3>no img</h3><h5>x</h5><div class=\"achieveRow\"><img src=\"i\"><h3>t</h3>",
        "<div class=\"achieveRow\"><img src=\"i\"><h5>early</h5><h3>t</h3><h5>late</h5>",
        "<div class=\"achieveRowBig\"\"><img src=\"i\"><h3>t</h3><h5>d</h5>",
    ];
    for page in pages {
        let expected: Vec<(String, String, String)> = re
            .captures_iter(page)
            .map(|c| (c[1].to_string(), c[2].trim().to_string(), c[3].trim().to_string()))
            .collect();
        let got: Vec<(String, String, String)> = parse_community_achievement_rows(page)
            .into_iter()
            .map(|r| (r.icon, r.display_name, r.description))
            .collect();
        let expected: Vec<(String, String, String)> = expected
            .into_iter()
            .map(|(i, t, d)| (i, t.replace("&amp;", "&"), d.replace("&amp;", "&")))
            .collect();
        assert_eq!(got, expected, "page {page:?}");
    }
}

#[test]
fn cdn_links_agree_with_regex() {
    let re = Regex::new(r#"https?://[^"'\s]*cdn\.ggntw\.(?:com|ru)[^"'\s]*"#).unwrap();
    let pages = [
        "see https://a.com/x then http://cdn.ggntw.ru/file.zip'",
        "https://cdn.ggntw.comx/a https://cdn.ggntw.co",
        "httpS://cdn.ggntw.com/a",
        "https://x.cdn.ggntw.com.evil/y\"",
        "nothing",
    ];
    for page in pages {
        let expected = re.find(page).map(|m| m.as_str().to_string());
        assert_eq!(extract_cdn_url(page), expected, "page {page:?}");
    }
}

#[test]
fn job_links_agree_with_regex() {
    let re = Regex::new(
        r"https://gitlab\.com/Mr_Goldberg/goldberg_emulator/-/jobs/(?P<jobid>\d+)/artifacts/download",
    )
    .unwrap();
    let pages = [
        "x https://gitlab.com/Mr_Goldberg/goldberg_emulator/-/jobs/12/artifacts/download y",
        "https://gitlab.com/Mr_Goldberg/goldberg_emulator/-/jobs//artifacts/download",
        "https://gitlab.com/Mr_Goldberg/goldberg_emulator/-/jobs/1/artifacts/downloa https://gitlab.com/Mr_Goldberg/goldberg_emulator/-/jobs/2/artifacts/download",
    ];
    for page in pages {
        let expected = re
            .captures(page)
            .map(|c| (c.get(0).unwrap().as_str().to_string(), c["jobid"].to_string()));
        assert_eq!(find_job_artifact(page), expected, "page {page:?}");
    }
}

fn reference_page(html: &str) -> Option<(String, Option<String>, Option<u32>)> {
    let decode = |s: &str| {
        s.replace("&amp;", "&")
            .replace("&lt;", "<")
            .replace("&gt;", ">")
            .replace("&quot;", "\"")
            .replace("&#39;", "'")
            .replace("&nbsp;", " ")
    };
    let mod_name = Regex::new(r#"(?is)class="[^"]*workshopItemTitle[^"]*"[^>]*>([^<]+)"#)
        .ok()
        .and_then(|re| re.captures(html))
        .and_then(|c| c.get(1))
        .map(|m| decode(m.as_str().trim()))
        .or_else(|| {
            Regex::new(r"(?is)<title>\s*Steam Workshop::([^<]+?)\s*</title>")
                .ok()
                .and_then(|re| re.captures(html))
                .and_then(|c| c.get(1))
                .map(|m| decode(m.as_str().trim()))
        })
        .filter(|s| !s.is_empty())?;
    let game_name = Regex::new(r#"(?is)<div class="apphub_AppName[^"]*">([^<]+)"#)
        .ok()
        .and_then(|re| re.captures(html))
        .and_then(|c| c.get(1))
        .map(|m| decode(m.as_str().trim()))
        .filter(|s| !s.is_empty());
    let game_app_id = Regex::new(r#"(?i)steamcommunity\.com/app/(\d+)"#)
        .ok()
        .and_then(|re| re.captures(html))
        .and_then(|c| c.get(1))
        .and_then(|m| m.as_str().parse().ok())
        .or_else(|| {
            Regex::new(r#"(?i)store\.steampowered\.com/app/(\d+)"#)
                .ok()
                .and_then(|re| re.captures(html))
                .and_then(|c| c.get(1))
                .and_then(|m| m.as_str().parse().ok())
        })
        .or_else(|| {
            Regex::new(r#"(?i)data-appid="(\d+)""#)
                .ok()
                .and_then(|re| re.captures(html))
                .and_then(|c| c.get(1))
                .and_then(|m| m.as_str().parse().ok())
        });
    Some((mod_name, game_name, game_app_id))
}

#[test]
fn workshop_pages_agree_with_regex() {
    let pages = [
        "<div CLASS=\"a workshopItemTitle b\" id=x>Title &amp; co</div><div class=\"apphub_AppName\">  </div>",
        "<title>\n Steam Workshop::  Spaced   </title> <div class=\"apphub_appname x\">Game</div>",
        "class=\"workshopitemtitle\">   </div><title>Steam Workshop::Fallback</title>",
        "class=\"x\" workshopItemTitle\">no</div> DATA-APPID=\"12\" steamcommunity.com/app/99999999999",
        "<title>Steam Workshop::</title>",
        "<title>Steam Workshop::a<b></title>",
        "class=\"workshopItemTitle\" <div>x",
    ];
    for page in pages {
        assert_eq!(fetch_workshop_page_info(page), reference_page(page), "page {page:?}");
    }
}

fn reference_capture_acf(text: &str, key: &str) -> Option<String> {
    let re = Regex::new(&format!(r#"(?i)"{key}"\s+"([^"]*)""#)).ok()?;
    re.captures(text).map(|c| c[1].to_string())
}

#[test]
fn acf_fields_agree_with_regex() {
    let texts = [
        "\"appid\"\t\"10\"\n\"name\"\t\"  N  \"\n\"installdir\"\t\"\"",
        "\"AppID\" \"4294967296\" \"installdir\" \"x\"",
        "\"appid\"\"5\" \"appid\" \"6\" \"installdir\" \"d\" \"buildid\" \"7\"",
        "\"appid\" \"\u{0663}\" \"installdir\" \"d\"",
        "\"appid\"\u{2028}\"8\" \"InstallDir\"  \"Game Dir\" \"NAME\" \"\"",
    ];
    for text in texts {
        let app_id: Option<u32> = reference_capture_acf(text, "appid").and_then(|s| s.parse().ok());
        let installdir = reference_capture_acf(text, "installdir");
        let got = parse_acf(text);
        match (app_id, installdir) {
            (Some(id), Some(dir)) => {
                let info = got.ok().expect("parsed");
                assert_eq!(info.app_id, id, "text {text:?}");
                assert_eq!(info.installdir, dir);
                let name = reference_capture_acf(text, "name").unwrap_or_else(|| format!("App {id}"));
                assert_eq!(info.name, name.trim());
                assert_eq!(info.buildid, reference_capture_acf(text, "buildid"));
            }
            _ => assert!(got.is_err(), "text {text:?}"),
        }
    }
}

fn reference_sanitize(name: &str) -> String {
    let mut out: String = name
        .chars()
        .map(|c| match c {
            '\\' | '/' | ':' | '*' | '?' | '"' | '<' | '>' | '|' => '_',
            c if c.is_control() => '_',
            c => c,
        })
        .collect();
    out = out.trim().trim_end_matches('.').to_string();
    if out.len() > 80 {
        out.truncate(80);
        out = out.trim_end().to_string();
    }
    if out.is_empty() {
        "Unknown".to_string()
    } else {
        out
    }
}

#[test]
fn folder_names_agree_with_the_reference() {
    let long_ascii = "y".repeat(100);
    let long_wide = "é".repeat(50);
    let mixed = "ab".to_string() + &"é".repeat(39) + "zz";
    let inputs = [
        "a:b", " x. ", "a.b.", "\u{85}t\u{9f}\u{a0}", "...", "", "<>|\"*?",
        long_ascii.as_str(), long_wide.as_str(), mixed.as_str(),
    ];
    for input in inputs {
        if folder_name_is_cuttable(input) {
            assert_eq!(sanitize_folder_name(input), reference_sanitize(input), "input {input:?}");
        } else {
            let stage = input.trim();
            assert!(stage.len() > 80 && !stage.is_char_boundary(80), "input {input:?}");
        }
    }
}

#[test]
fn applist_folders_agree_with_the_reference() {
    fn reference(files: &[(String, String)]) -> Vec<u32> {
        let mut files: Vec<&(String, String)> = files.iter().collect();
        files.sort_by_key(|(n, _)| n.trim_end_matches(".txt").parse::<u32>().unwrap_or(u32::MAX));
        let mut ids = Vec::new();
        for (name, text) in files {
            if std::path::Path::new(name).extension().and_then(|x| x.to_str()) != Some("txt") {
                continue;
            }
            let id_line = text.lines().next().unwrap_or("").trim();
            if let Ok(app_id) = id_line.parse::<u32>() {
                if !ids.contains(&app_id) {
                    ids.push(app_id);
                }
            }
        }
        ids
    }
    let f = |n: &str, t: &str| (n.to_string(), t.to_string());
    let folders = vec![
        vec![f("3.txt", "30"), f("b.txt", "1"), f("1.txt", "10\n99"), f("a.txt", "2"), f("2.TXT", "20"), f("x", "5")],
        vec![f("0.txt.txt", "7"), f("+1.txt", "8"), f("01.txt", "9"), f(".txt", "4"), f("5.txt", ""), f("4.txt", " +6 \r\n")],
        vec![f("10.txt", "1"), f("9.txt", "1"), f("8.txt", "2")],
    ];
    for files in folders {
        assert_eq!(read_ids_from_dir(&files), reference(&files), "files {files:?}");
    }
}

#[test]
fn search_terms_agree_with_std_paths() {
    fn reference(exe_path: &Path) -> Vec<String> {
        let mut terms = Vec::new();
        if let Some(stem) = exe_path.file_stem().and_then(|s| s.to_str()) {
            if !stem.trim().is_empty() {
                terms.push(stem.to_string());
            }
        }
        if let Some(folder_name) = exe_path.parent().and_then(|p| p.file_name()).and_then(|s| s.to_str()) {
            if !folder_name.trim().is_empty() && !terms.iter().any(|t: &String| t.eq_ignore_ascii_case(folder_name)) {
                terms.push(folder_name.to_string());
            }
        }
        if let Some(full) = exe_path.to_str() {
            if !terms.iter().any(|t| t.eq_ignore_ascii_case(full)) {
                terms.push(full.to_string());
            }
        }
        terms
    }
    for p in ["/games/Hades/Hades.exe", "/games/orb/Game.exe", "/games/x/.hidden", "/games/a.b/c.d.exe", "Game.exe", "/games/ /x.exe"] {
        assert_eq!(build_search_terms(p), reference(Path::new(p)), "path {p:?}");
    }
}
