//! GreenLuma support: Steam's `appmanifest_*.acf` and `libraryfolders.vdf`
//! files, CSF library packs, the download watch, the AppList, the archive
//! passwords and the integrity check of an install.

use vstd::prelude::*;
use sha2::Digest;
use crate::archive::{first_acf_entry, is_acf_entry, spec_is_steam_library_layout};
use crate::text::{
    eq_ignore_ascii_case_str, contains, chars_of, to_lowercase, decimal, parse_uint, parse_u32_range, parse_u64_range, push_decimal,
    string_of, string_of_range, trim, trim_range, unicode_lowercase,
};
use crate::pattern::CharClass;
use crate::scan::{
    capture_first, capture_first_exec, captures_all, captures_all_exec, Pattern, PatternSpec,
};

verus! {

broadcast use vstd::string::group_string_axioms;

// ---------------------------------------------------------------------------
// Quoted key/value pairs (`"key"  "value"`)
// ---------------------------------------------------------------------------

/// The pattern `(?i)"key"\s+"([^"]*)"` (`[^"]+` when the value may not be
/// empty).
pub open spec fn pair_pattern(key: Seq<char>, allow_empty: bool) -> PatternSpec {
    PatternSpec {
        p1: seq!['"'] + key + seq!['"'],
        case_insensitive: true,
        word_boundary: false,
        skip: Some((CharClass::Space, true)),
        p2: seq!['"'],
        capture: CharClass::Not('"'),
        capture_nonempty: !allow_empty,
        p3: seq!['"'],
    }
}

fn pair_pattern_exec(key: &str, allow_empty: bool) -> (p: Pattern)
    ensures
        p@ == pair_pattern(key@, allow_empty),
{
    let mut p1: Vec<char> = Vec::new();
    p1.push('"');
    let kv = chars_of(key);
    crate::text::extend_chars(&mut p1, &kv);
    p1.push('"');
    let mut p2: Vec<char> = Vec::new();
    p2.push('"');
    let mut p3: Vec<char> = Vec::new();
    p3.push('"');
    let p = Pattern {
        p1,
        case_insensitive: true,
        word_boundary: false,
        skip: Some((CharClass::Space, true)),
        p2,
        capture: CharClass::Not('"'),
        capture_nonempty: !allow_empty,
        p3,
    };
    assert(p@.p1 =~= seq!['"'] + key@ + seq!['"']);
    assert(p@.p2 =~= seq!['"']);
    assert(p@.p3 =~= seq!['"']);
    p
}

/// What the pattern `(?i)"key"\s+"([^"]*)"` captures first in `s`.
pub open spec fn capture_acf(s: Seq<char>, key: Seq<char>) -> Option<Seq<char>> {
    capture_first(pair_pattern(key, true), s)
}

/// `capture_acf` computed.
pub fn capture_acf_exec(v: &Vec<char>, key: &str) -> (r: Option<String>)
    ensures
        r matches Some(c) ==> capture_acf(v@, key@) == Some(c@),
        r is None ==> capture_acf(v@, key@) is None,
{
    let p = pair_pattern_exec(key, true);
    capture_first_exec(&p, v)
}

// ---------------------------------------------------------------------------
// App manifests (`appmanifest_<id>.acf`)
// ---------------------------------------------------------------------------

/// Why reading Steam files, a CSF pack or a GreenLuma install failed.
pub enum GreenLumaError {
    /// The manifest has no usable `appid`.
    AcfMissingAppId,
    /// The manifest has no `installdir`.
    AcfMissingInstallDir,
    /// The archive is not a Steam library pack.
    NotLibraryPack,
    /// No `appmanifest_*.acf` entry in the archive.
    NoAppManifest,
    /// The app id could not be read from the manifest's file name.
    AppIdNotInName(String),
    /// No `steamapps/common/<game>/` entry in the archive.
    NoCommonFolder,
    /// The install folder is missing under `steamapps/common/`.
    InstallDirMissing,
    /// A required GreenLuma file is missing.
    MissingFile(String),
    /// The hash list has no entry for a required file.
    NoHashEntry(String),
    /// A file's SHA-256 differs from the hash list: name, expected, actual.
    HashMismatch(String, String, String),
    /// Steam could not be found (set its path in the settings).
    SteamNotFound,
    /// `steam.exe` is missing under the given folder.
    SteamExeMissing(String),
    /// Another step failed.
    Other(String),
}

/// What a manifest says about an app.
pub struct AcfInfo {
    pub app_id: u32,
    pub name: String,
    pub installdir: String,
    pub buildid: Option<String>,
}

/// The text `App <id>`.
pub open spec fn app_label(app_id: nat) -> Seq<char> {
    "App "@ + decimal(app_id)
}

pub fn app_label_string(app_id: u64) -> (r: String)
    ensures
        r@ == app_label(app_id as nat),
{
    let mut v = chars_of("App ");
    push_decimal(&mut v, app_id);
    string_of(&v)
}

/// The manifest's fields: `appid` (a `u32`, required), `name` (trimmed;
/// `App <id>` when absent), `installdir` (required) and `buildid`.
pub open spec fn spec_parse_acf(text: Seq<char>) -> Option<(nat, Seq<char>, Seq<char>, Option<Seq<char>>)> {
    match capture_acf(text, "appid"@) {
        Some(id_text) => match parse_uint(id_text, u32::MAX as nat) {
            Some(app_id) => match capture_acf(text, "installdir"@) {
                Some(installdir) => Some(
                    (
                        app_id,
                        trim(
                            match capture_acf(text, "name"@) {
                                Some(n) => n,
                                None => app_label(app_id),
                            },
                        ),
                        installdir,
                        capture_acf(text, "buildid"@),
                    ),
                ),
                None => None,
            },
            None => None,
        },
        None => None,
    }
}

/// Reads an app manifest.
pub fn parse_acf(text: &str) -> (r: Result<AcfInfo, GreenLumaError>)
    ensures
        r matches Ok(info) ==> spec_parse_acf(text@) matches Some(t) && t.0 == info.app_id
            && t.1 == info.name@ && t.2 == info.installdir@ && (match (t.3, info.buildid) {
            (Some(a), Some(b)) => a == b@,
            (None, None) => true,
            _ => false,
        }),
        r is Err ==> spec_parse_acf(text@) is None,
        r matches Err(e) ==> (e is AcfMissingAppId && (capture_acf(text@, "appid"@) is None
            || parse_uint(capture_acf(text@, "appid"@).unwrap(), u32::MAX as nat) is None)) || (
        e is AcfMissingInstallDir && capture_acf(text@, "installdir"@) is None),
{
    let v = chars_of(text);
    let app_id = match capture_acf_exec(&v, "appid") {
        Some(id_text) => {
            let iv = chars_of(id_text.as_str());
            assert(iv@.subrange(0, iv@.len() as int) =~= iv@);
            match parse_u32_range(&iv, 0, iv.len()) {
                Some(n) => n,
                None => return Err(GreenLumaError::AcfMissingAppId),
            }
        },
        None => return Err(GreenLumaError::AcfMissingAppId),
    };
    let raw_name = match capture_acf_exec(&v, "name") {
        Some(n) => n,
        None => app_label_string(app_id as u64),
    };
    let nv = chars_of(raw_name.as_str());
    let (na, nb) = trim_range(&nv, 0, nv.len());
    assert(nv@.subrange(0, nv@.len() as int) =~= nv@);
    let name = string_of_range(&nv, na, nb);
    let installdir = match capture_acf_exec(&v, "installdir") {
        Some(d) => d,
        None => return Err(GreenLumaError::AcfMissingInstallDir),
    };
    let buildid = capture_acf_exec(&v, "buildid");
    Ok(AcfInfo { app_id, name, installdir, buildid })
}

/// A manifest field read as a `u64`.
pub open spec fn capture_acf_u64(text: Seq<char>, key: Seq<char>) -> Option<nat> {
    match capture_acf(text, key) {
        Some(v) => parse_uint(v, u64::MAX as nat),
        None => None,
    }
}

fn capture_acf_u64_exec(v: &Vec<char>, key: &str) -> (r: Option<u64>)
    ensures
        r matches Some(n) ==> capture_acf_u64(v@, key@) == Some(n as nat),
        r is None ==> capture_acf_u64(v@, key@) is None,
{
    match capture_acf_exec(v, key) {
        Some(t) => {
            let tv = chars_of(t.as_str());
            assert(tv@.subrange(0, tv@.len() as int) =~= tv@);
            parse_u64_range(&tv, 0, tv.len())
        },
        None => None,
    }
}

/// A manifest field read as a `u64`, 0 when absent or unreadable.
pub open spec fn acf_u64_or_zero(text: Seq<char>, key: Seq<char>) -> nat {
    match capture_acf_u64(text, key) {
        Some(n) => n,
        None => 0,
    }
}

/// The manifest shows a download or update in progress: bytes still to
/// download or to stage, or state flag 512 or 1024 set.
pub open spec fn spec_acf_looks_downloading(text: Seq<char>) -> bool {
    let to = acf_u64_or_zero(text, "BytesToDownload"@);
    let got = acf_u64_or_zero(text, "BytesDownloaded"@);
    let stage_to = acf_u64_or_zero(text, "BytesToStage"@);
    let staged = acf_u64_or_zero(text, "BytesStaged"@);
    let flags = acf_u64_or_zero(text, "StateFlags"@) as u64;
    (to > 0 && got < to) || (stage_to > 0 && staged < stage_to) || (flags & 512) != 0 || (flags
        & 1024) != 0
}

fn u64_or_zero(o: Option<u64>) -> (n: u64)
    ensures
        o matches Some(x) ==> n == x,
        o is None ==> n == 0,
{
    match o {
        Some(x) => x,
        None => 0,
    }
}

/// Whether the manifest indicates an in-progress download or update.
pub fn acf_looks_downloading(text: &str) -> (r: bool)
    ensures
        r == spec_acf_looks_downloading(text@),
{
    let v = chars_of(text);
    let to = u64_or_zero(capture_acf_u64_exec(&v, "BytesToDownload"));
    let got = u64_or_zero(capture_acf_u64_exec(&v, "BytesDownloaded"));
    if to > 0 && got < to {
        return true;
    }
    let stage_to = u64_or_zero(capture_acf_u64_exec(&v, "BytesToStage"));
    let staged = u64_or_zero(capture_acf_u64_exec(&v, "BytesStaged"));
    if stage_to > 0 && staged < stage_to {
        return true;
    }
    let flags = u64_or_zero(capture_acf_u64_exec(&v, "StateFlags"));
    (flags & 512) != 0 || (flags & 1024) != 0
}

// ---------------------------------------------------------------------------
// Library folders (`libraryfolders.vdf`)
// ---------------------------------------------------------------------------

/// Library folder paths named in `libraryfolders.vdf`: every value of
/// `"path"` (pattern `(?i)"path"\s+"([^"]+)"`, matches one after another),
/// each with its doubled backslashes made single.
pub open spec fn spec_library_paths(text: Seq<char>) -> Seq<Seq<char>> {
    captures_all(pair_pattern("path"@, false), text).map_values(
        |p: Seq<char>| crate::text::replace_all(p, "\\\\"@, "\\"@),
    )
}

/// The library folder paths that `libraryfolders.vdf` lists, in order.
pub fn library_paths(text: &str) -> (r: Vec<String>)
    ensures
        r@.len() == spec_library_paths(text@).len(),
        forall|i: int| 0 <= i < r@.len() ==> #[trigger] r@[i]@ == spec_library_paths(text@)[i],
{
    let v = chars_of(text);
    let p = pair_pattern_exec("path", false);
    let caps = captures_all_exec(&p, &v);
    let from = chars_of("\\\\");
    let to = chars_of("\\");
    proof {
        reveal_strlit("\\\\");
    }
    let mut out: Vec<String> = Vec::new();
    let mut i: usize = 0;
    while i < caps.len()
        invariant
            v@ == text@,
            p@ == pair_pattern("path"@, false),
            caps@.len() == captures_all(p@, v@).len(),
            forall|k: int| 0 <= k < caps@.len() ==> #[trigger] caps@[k]@ == captures_all(p@, v@)[k],
            from@ == "\\\\"@,
            to@ == "\\"@,
            from@.len() > 0,
            i <= caps.len(),
            out@.len() == i,
            forall|k: int| 0 <= k < i ==> #[trigger] out@[k]@ == spec_library_paths(text@)[k],
        decreases caps.len() - i,
    {
        let fixed = crate::text::replace_all_exec(&caps[i], &from, &to);
        out.push(string_of(&fixed));
        i = i + 1;
    }
    out
}

// ---------------------------------------------------------------------------
// CSF packs
// ---------------------------------------------------------------------------

/// The pattern `(?i)appmanifest_(\d+)\.acf`.
pub open spec fn manifest_id_pattern() -> PatternSpec {
    PatternSpec {
        p1: "appmanifest_"@,
        case_insensitive: true,
        word_boundary: false,
        skip: None,
        p2: Seq::empty(),
        capture: CharClass::Decimal,
        capture_nonempty: true,
        p3: ".acf"@,
    }
}

/// The pattern `(?i)steamapps/common/([^/]+)/`.
pub open spec fn common_dir_pattern() -> PatternSpec {
    PatternSpec {
        p1: "steamapps/common/"@,
        case_insensitive: true,
        word_boundary: false,
        skip: None,
        p2: Seq::empty(),
        capture: CharClass::Not('/'),
        capture_nonempty: true,
        p3: "/"@,
    }
}

fn simple_pattern(p1: &str, capture: CharClass, p3: &str) -> (p: Pattern)
    ensures
        p@ == (PatternSpec {
            p1: p1@,
            case_insensitive: true,
            word_boundary: false,
            skip: None,
            p2: Seq::empty(),
            capture: capture,
            capture_nonempty: true,
            p3: p3@,
        }),
{
    let p = Pattern {
        p1: chars_of(p1),
        case_insensitive: true,
        word_boundary: false,
        skip: None,
        p2: Vec::new(),
        capture,
        capture_nonempty: true,
        p3: chars_of(p3),
    };
    assert(p@.p2 =~= Seq::<char>::empty());
    p
}

/// Why a pack listing is not a valid CSF pack.
pub enum CsfProblem {
    NotLibraryPack,
    AppIdNotInName,
    NoCommonFolder,
    InstallDirMissing,
}

/// Index of the first app manifest entry.
pub open spec fn first_acf_index(paths: Seq<Seq<char>>) -> int {
    choose|i: int|
        0 <= i < paths.len() && is_acf_entry(paths[i]) && forall|j: int|
            0 <= j < i ==> !is_acf_entry(#[trigger] paths[j])
}

/// The app id in the manifest entry's name.
pub open spec fn manifest_app_id(path: Seq<char>) -> Option<nat> {
    match capture_first(manifest_id_pattern(), path) {
        Some(d) => parse_uint(d, u32::MAX as nat),
        None => None,
    }
}

/// Index of the first entry under `steamapps/common/<folder>/`.
pub open spec fn first_common_index(paths: Seq<Seq<char>>) -> int {
    choose|i: int|
        0 <= i < paths.len() && capture_first(common_dir_pattern(), paths[i]) is Some && forall|
            j: int,
        | 0 <= j < i ==> capture_first(common_dir_pattern(), #[trigger] paths[j]) is None
}

/// Some entry lies under `steamapps/common/<installdir>/` (compared lower-cased,
/// with `\` read as `/`).
pub open spec fn has_install_folder(paths: Seq<Seq<char>>, installdir: Seq<char>) -> bool {
    exists|i: int|
        0 <= i < paths.len() && contains(
            unicode_lowercase(crate::text::replace_all(#[trigger] paths[i], "\\"@, "/"@)),
            "steamapps/common/"@ + unicode_lowercase(installdir) + "/"@,
        )
}

/// The CSF check: the app id from the first manifest entry's name and the
/// install folder from the first `steamapps/common/<folder>/` entry.
pub open spec fn spec_validate_csf(paths: Seq<Seq<char>>) -> Result<(nat, Seq<char>), CsfProblem> {
    if !spec_is_steam_library_layout(paths) {
        Err(CsfProblem::NotLibraryPack)
    } else {
        match manifest_app_id(paths[first_acf_index(paths)]) {
            None => Err(CsfProblem::AppIdNotInName),
            Some(app_id) => {
                if !(exists|i: int|
                    0 <= i < paths.len() && capture_first(common_dir_pattern(), #[trigger] paths[i])
                        is Some) {
                    Err(CsfProblem::NoCommonFolder)
                } else {
                    let dir = capture_first(common_dir_pattern(), paths[first_common_index(paths)]).unwrap();
                    if has_install_folder(paths, dir) {
                        Ok((app_id, dir))
                    } else {
                        Err(CsfProblem::InstallDirMissing)
                    }
                }
            },
        }
    }
}

/// Checks a CSF pack listing: it has an app manifest and a matching
/// `steamapps/common/<installdir>/` folder.
pub fn validate_csf_layout(paths: &Vec<String>) -> (r: Result<AcfInfo, GreenLumaError>)
    ensures
        spec_validate_csf(paths@.map_values(|p: String| p@)) matches Ok((id, dir)) ==> (r matches Ok(
            info,
        ) && info.app_id == id && info.installdir@ == dir && info.name@ == dir
            && info.buildid is None),
        spec_validate_csf(paths@.map_values(|p: String| p@)) matches Err(e) ==> (match e {
            CsfProblem::NotLibraryPack => r matches Err(GreenLumaError::NotLibraryPack),
            CsfProblem::AppIdNotInName => r matches Err(GreenLumaError::AppIdNotInName(p)) && p@
                == paths@[first_acf_index(paths@.map_values(|p: String| p@))]@,
            CsfProblem::NoCommonFolder => r matches Err(GreenLumaError::NoCommonFolder),
            CsfProblem::InstallDirMissing => r matches Err(GreenLumaError::InstallDirMissing),
        }),
{
    let ghost ps = paths@.map_values(|p: String| p@);
    let ai = match first_acf_entry(paths) {
        Some(i) => i,
        None => {
            assert(!spec_is_steam_library_layout(ps)) by {
                assert forall|j: int| 0 <= j < ps.len() implies !is_acf_entry(#[trigger] ps[j]) by {
                    assert(ps[j] == paths@[j]@);
                }
            }
            return Err(GreenLumaError::NotLibraryPack);
        },
    };
    proof {
        assert(ps[ai as int] == paths@[ai as int]@);
        assert(spec_is_steam_library_layout(ps));
        let w = first_acf_index(ps);
        assert(0 <= ai < ps.len() && is_acf_entry(ps[ai as int]) && forall|j: int|
            0 <= j < ai ==> !is_acf_entry(#[trigger] ps[j])) by {
            assert forall|j: int| 0 <= j < ai implies !is_acf_entry(#[trigger] ps[j]) by {
                assert(ps[j] == paths@[j]@);
            }
        }
        if w < ai {
            assert(!is_acf_entry(ps[w]));
        } else if w > ai {
            assert(!is_acf_entry(ps[ai as int]));
        }
        assert(w == ai);
    }
    let acf_chars = chars_of(paths[ai].as_str());
    let mp = simple_pattern("appmanifest_", CharClass::Decimal, ".acf");
    assert(mp@ == manifest_id_pattern());
    let app_id = match capture_first_exec(&mp, &acf_chars) {
        Some(d) => {
            let dv = chars_of(d.as_str());
            assert(dv@.subrange(0, dv@.len() as int) =~= dv@);
            match parse_u32_range(&dv, 0, dv.len()) {
                Some(n) => n,
                None => return Err(GreenLumaError::AppIdNotInName(paths[ai].clone())),
            }
        },
        None => return Err(GreenLumaError::AppIdNotInName(paths[ai].clone())),
    };
    let (di, installdir) = match first_common_dir(paths) {
        Some(x) => x,
        None => {
            assert forall|j: int| 0 <= j < ps.len() implies capture_first(common_dir_pattern(), #[trigger] ps[j]) is None by {
                assert(ps[j] == paths@[j]@);
            }
            return Err(GreenLumaError::NoCommonFolder);
        },
    };
    proof {
        assert forall|j: int| 0 <= j < di implies capture_first(common_dir_pattern(), #[trigger] ps[j]) is None by {
            assert(ps[j] == paths@[j]@);
        }
        assert(ps[di as int] == paths@[di as int]@);
        let w = first_common_index(ps);
        if w < di {
            assert(capture_first(common_dir_pattern(), ps[w]) is None);
        } else if w > di {
            assert(capture_first(common_dir_pattern(), ps[di as int]) is None);
        }
    }
    if !install_folder_present(paths, installdir.as_str()) {
        return Err(GreenLumaError::InstallDirMissing);
    }
    Ok(AcfInfo { app_id, name: installdir.clone(), installdir, buildid: None })
}

/// The first entry under `steamapps/common/<folder>/`: its index and folder.
fn first_common_dir(paths: &Vec<String>) -> (r: Option<(usize, String)>)
    ensures
        r matches Some((i, d)) ==> i < paths@.len() && capture_first(
            common_dir_pattern(),
            paths@[i as int]@,
        ) == Some(d@) && forall|j: int|
            0 <= j < i ==> capture_first(common_dir_pattern(), #[trigger] paths@[j]@) is None,
        r is None ==> forall|j: int|
            0 <= j < paths@.len() ==> capture_first(common_dir_pattern(), #[trigger] paths@[j]@) is None,
{
    let ghost ps = paths@.map_values(|p: String| p@);
    let cp = simple_pattern("steamapps/common/", CharClass::Not('/'), "/");
    assert(cp@ == common_dir_pattern());
    let mut ci: usize = 0;
    while ci < paths.len()
        invariant
            ci <= paths@.len(),
            cp@ == common_dir_pattern(),
            ps == paths@.map_values(|p: String| p@),
            forall|j: int| 0 <= j < ci ==> capture_first(common_dir_pattern(), #[trigger] paths@[j]@) is None,
        decreases paths.len() - ci,
    {
        let pc = chars_of(paths[ci].as_str());
        assert(ps[ci as int] == paths@[ci as int]@);
        match capture_first_exec(&cp, &pc) {
            Some(d) => {
                return Some((ci, d));
            },
            None => {},
        }
        ci = ci + 1;
    }
    None
}

/// Whether a lower-cased entry, with `/` separators, lies under
/// `steamapps/common/<installdir>/` for a lower-cased `installdir`.
pub fn under_install_folder(lowered_path: &str, lowered_installdir: &str) -> (r: bool)
    ensures
        r == contains(lowered_path@, "steamapps/common/"@ + lowered_installdir@ + "/"@),
{
    let mut want = chars_of("steamapps/common/");
    crate::text::extend_chars(&mut want, &chars_of(lowered_installdir));
    want.push('/');
    proof {
        reveal_strlit("/");
        assert(want@ =~= "steamapps/common/"@ + lowered_installdir@ + "/"@);
    }
    crate::text::contains_exec(&chars_of(lowered_path), &want)
}

/// Whether some entry lies under `steamapps/common/<installdir>/`.
fn install_folder_present(paths: &Vec<String>, installdir: &str) -> (r: bool)
    ensures
        r == has_install_folder(paths@.map_values(|p: String| p@), installdir@),
{
    let ghost ps = paths@.map_values(|p: String| p@);
    let lowered_dir = to_lowercase(installdir);
    let from = chars_of("\\");
    let to = chars_of("/");
    proof {
        reveal_strlit("\\");
        reveal_strlit("/");
    }
    let mut i: usize = 0;
    while i < paths.len()
        invariant
            i <= paths@.len(),
            ps == paths@.map_values(|p: String| p@),
            lowered_dir@ == unicode_lowercase(installdir@),
            from@ == "\\"@,
            to@ == "/"@,
            from@.len() > 0,
            forall|j: int|
                0 <= j < i ==> !contains(
                    unicode_lowercase(crate::text::replace_all(#[trigger] ps[j], "\\"@, "/"@)),
                    "steamapps/common/"@ + unicode_lowercase(installdir@) + "/"@,
                ),
        decreases paths.len() - i,
    {
        let pv = chars_of(paths[i].as_str());
        assert(ps[i as int] == paths@[i as int]@);
        let slashed = string_of(&crate::text::replace_all_exec(&pv, &from, &to));
        let lower = to_lowercase(slashed.as_str());
        if under_install_folder(lower.as_str(), lowered_dir.as_str()) {
            return true;
        }
        i = i + 1;
    }
    false
}

// ---------------------------------------------------------------------------
// The GreenLuma install and its hash list
// ---------------------------------------------------------------------------

/// The bundled hash list: version, archive name, archive password, and the
/// SHA-256 of each file (name, hex digest).
pub struct HashManifest {
    pub version: String,
    pub archive: String,
    pub password: String,
    pub files: Vec<(String, String)>,
}

/// The bundled archive's password.
pub fn bundled_password(m: &HashManifest) -> (r: &str)
    ensures
        r@ == m.password@,
{
    m.password.as_str()
}

/// The bundled GreenLuma version.
pub fn bundled_version(m: &HashManifest) -> (r: &str)
    ensures
        r@ == m.version@,
{
    m.version.as_str()
}

/// The files an install must hold, in the order they are checked.
pub open spec fn required_files() -> Seq<Seq<char>> {
    seq!["GreenLuma_2026_x64.dll"@, "GreenLuma_2026_x86.dll"@, "DLLInjector.exe"@]
}

/// What SHA-256 gives for the bytes.
pub uninterp spec fn sha256(data: Seq<u8>) -> Seq<u8>;

/// SHA-256 of the bytes (`sha2::Sha256::digest`): the digest that the name
/// `sha256` stands for, 32 bytes long.
#[verifier::external_body]
fn sha256_digest(data: &Vec<u8>) -> (r: Vec<u8>)
    ensures
        r@ == sha256(data@),
        r@.len() == 32,
{
    sha2::Sha256::digest(data.as_slice()).to_vec()
}

/// The upper-case hex digit for `d < 16`.
pub open spec fn hex_digit(d: nat) -> char {
    if d < 10 {
        ((d + 48) as u8) as char
    } else {
        ((d + 55) as u8) as char
    }
}

/// Bytes in upper-case hex, two digits each (`{:02X}`).
pub open spec fn hex_upper(bytes: Seq<u8>) -> Seq<char>
    decreases bytes.len(),
{
    if bytes.len() == 0 {
        seq![]
    } else {
        hex_upper(bytes.drop_last()) + seq![
            hex_digit((bytes.last() / 16) as nat),
            hex_digit((bytes.last() % 16) as nat),
        ]
    }
}

fn hex_digit_exec(d: u8) -> (c: char)
    requires
        d < 16,
    ensures
        c == hex_digit(d as nat),
{
    if d < 10 {
        (d + 48) as char
    } else {
        (d + 55) as char
    }
}

/// The bytes in upper-case hex.
pub fn hex_upper_string(bytes: &Vec<u8>) -> (r: String)
    ensures
        r@ == hex_upper(bytes@),
{
    let mut v: Vec<char> = Vec::new();
    let mut i: usize = 0;
    while i < bytes.len()
        invariant
            i <= bytes.len(),
            v@ == hex_upper(bytes@.take(i as int)),
        decreases bytes.len() - i,
    {
        let b = bytes[i];
        v.push(hex_digit_exec(b / 16));
        v.push(hex_digit_exec(b % 16));
        assert(bytes@.take(i + 1).drop_last() =~= bytes@.take(i as int));
        assert(v@ =~= hex_upper(bytes@.take(i + 1)));
        i = i + 1;
    }
    assert(bytes@.take(bytes.len() as int) =~= bytes@);
    string_of(&v)
}

/// The expected hash of a file in the hash list (the first entry for it).
pub open spec fn expected_hash(files: Seq<(String, String)>, name: Seq<char>) -> Option<Seq<char>> {
    if exists|i: int| 0 <= i < files.len() && files[i].0@ == name {
        Some(
            files[choose|i: int|
                0 <= i < files.len() && files[i].0@ == name && forall|j: int|
                    0 <= j < i ==> #[trigger] files[j].0@ != name].1@,
        )
    } else {
        None
    }
}

fn expected_hash_exec(files: &Vec<(String, String)>, name: &str) -> (r: Option<String>)
    ensures
        r matches Some(h) ==> expected_hash(files@, name@) == Some(h@),
        r is None ==> expected_hash(files@, name@) is None,
{
    let nv = chars_of(name);
    let mut i: usize = 0;
    while i < files.len()
        invariant
            i <= files.len(),
            nv@ == name@,
            forall|j: int| 0 <= j < i ==> #[trigger] files@[j].0@ != name@,
        decreases files.len() - i,
    {
        if crate::text::eq_chars(&chars_of(files[i].0.as_str()), &nv) {
            proof {
                let w = choose|k: int|
                    0 <= k < files@.len() && files@[k].0@ == name@ && forall|j: int|
                        0 <= j < k ==> #[trigger] files@[j].0@ != name@;
                assert(files@[i as int].0@ == name@);
                if w < i {
                    assert(files@[w].0@ != name@);
                } else if w > i {
                    assert(files@[i as int].0@ != name@);
                }
            }
            return Some(files[i].1.clone());
        }
        i = i + 1;
    }
    None
}

/// An error's kind and texts, for comparing errors by value.
pub open spec fn error_view(e: GreenLumaError) -> (int, Seq<char>, Seq<char>, Seq<char>) {
    match e {
        GreenLumaError::MissingFile(n) => (1, n@, seq![], seq![]),
        GreenLumaError::NoHashEntry(n) => (2, n@, seq![], seq![]),
        GreenLumaError::HashMismatch(n, x, a) => (3, n@, x@, a@),
        _ => (0, seq![], seq![], seq![]),
    }
}

/// The check of one required file (its bytes, `None` when it is missing):
/// it must exist (else kind 1), have a hash list entry (else kind 2), and
/// hash to it, hex compared up to ASCII case (else kind 3 with the
/// expected and actual hashes).
#[verifier::opaque]
pub open spec fn file_check(m: HashManifest, name: Seq<char>, content: Option<Seq<u8>>) -> Option<
    (int, Seq<char>, Seq<char>, Seq<char>),
> {
    match content {
        None => Some((1, name, seq![], seq![])),
        Some(bytes) => match expected_hash(m.files@, name) {
            None => Some((2, name, seq![], seq![])),
            Some(exp) => if crate::text::eq_ignore_ascii_case(hex_upper(sha256(bytes)), exp) {
                None
            } else {
                Some((3, name, exp, hex_upper(sha256(bytes))))
            },
        },
    }
}

/// What each required file holds, from the list handed in.
pub open spec fn content_of(installed: Seq<Option<Vec<u8>>>, i: int) -> Option<Seq<u8>> {
    if 0 <= i < installed.len() {
        match installed[i] {
            Some(b) => Some(b@),
            None => None,
        }
    } else {
        None
    }
}

/// The first problem among the files `0..k`, checked in order.
pub open spec fn verify_upto(m: HashManifest, installed: Seq<Option<Vec<u8>>>, k: int) -> Option<
    (int, Seq<char>, Seq<char>, Seq<char>),
>
    decreases k,
{
    if k <= 0 {
        None
    } else {
        match verify_upto(m, installed, k - 1) {
            Some(e) => Some(e),
            None => file_check(m, required_files()[k - 1], content_of(installed, k - 1)),
        }
    }
}

fn check_file(m: &HashManifest, name: &str, content: Option<&Vec<u8>>) -> (r: Result<
    (),
    GreenLumaError,
>)
    ensures
        r is Ok <==> file_check(
            *m,
            name@,
            match content {
                Some(b) => Some(b@),
                None => None,
            },
        ) is None,
        r matches Err(e) ==> file_check(
            *m,
            name@,
            match content {
                Some(b) => Some(b@),
                None => None,
            },
        ) == Some(error_view(e)),
{
    reveal(file_check);
    match content {
        None => Err(GreenLumaError::MissingFile(String::from_str(name))),
        Some(bytes) => match expected_hash_exec(&m.files, name) {
            None => Err(GreenLumaError::NoHashEntry(String::from_str(name))),
            Some(expected) => {
                let digest = sha256_digest(bytes);
                let actual = hex_upper_string(&digest);
                if crate::text::eq_ignore_ascii_case_str(actual.as_str(), expected.as_str()) {
                    Ok(())
                } else {
                    Err(GreenLumaError::HashMismatch(String::from_str(name), expected, actual))
                }
            },
        },
    }
}

fn content_at(installed: &Vec<Option<Vec<u8>>>, i: usize) -> (r: Option<&Vec<u8>>)
    ensures
        (match r {
            Some(b) => Some(b@),
            None => None,
        }) == content_of(installed@, i as int),
{
    if i < installed.len() {
        match &installed[i] {
            Some(b) => Some(b),
            None => None,
        }
    } else {
        None
    }
}

/// Checks a GreenLuma install: each required file (`installed[i]` holds
/// the bytes of the `i`-th, `None` when it is missing) must exist and match
/// its SHA-256 in the hash list; the first problem is reported.
pub fn verify_install(m: &HashManifest, installed: &Vec<Option<Vec<u8>>>) -> (r: Result<
    (),
    GreenLumaError,
>)
    ensures
        r is Ok <==> verify_upto(*m, installed@, 3) is None,
        r matches Err(e) ==> verify_upto(*m, installed@, 3) == Some(error_view(e)),
{
    let ghost fs = required_files();
    assert(fs[0] == "GreenLuma_2026_x64.dll"@);
    assert(fs[1] == "GreenLuma_2026_x86.dll"@);
    assert(fs[2] == "DLLInjector.exe"@);
    assert(verify_upto(*m, installed@, 0) is None);
    let r0 = check_file(m, "GreenLuma_2026_x64.dll", content_at(installed, 0));
    assert(verify_upto(*m, installed@, 1) == file_check(*m, fs[0], content_of(installed@, 0)));
    if r0.is_err() {
        assert(verify_upto(*m, installed@, 2) == verify_upto(*m, installed@, 1));
        assert(verify_upto(*m, installed@, 3) == verify_upto(*m, installed@, 2));
        return r0;
    }
    let r1 = check_file(m, "GreenLuma_2026_x86.dll", content_at(installed, 1));
    assert(verify_upto(*m, installed@, 2) == file_check(*m, fs[1], content_of(installed@, 1)));
    if r1.is_err() {
        assert(verify_upto(*m, installed@, 3) == verify_upto(*m, installed@, 2));
        return r1;
    }
    assert(verify_upto(*m, installed@, 3) == file_check(*m, fs[2], content_of(installed@, 2)));
    check_file(m, "DLLInjector.exe", content_at(installed, 2))
}

/// The install passes `verify_install`.
pub fn is_installed(m: &HashManifest, installed: &Vec<Option<Vec<u8>>>) -> (r: bool)
    ensures
        r == (verify_upto(*m, installed@, 3) is None),
{
    verify_install(m, installed).is_ok()
}

// ---------------------------------------------------------------------------
// Finding Steam
// ---------------------------------------------------------------------------

/// Where Steam is: its executable, its folder, and the library that CSF
/// packs are installed into.
#[derive(Debug, Clone)]
pub struct SteamPaths {
    pub steam_exe: String,
    pub steam_dir: String,
    pub library_root: String,
}

/// What the file system and registry said while looking for Steam.
pub struct SteamProbe {
    /// The chosen `steam.exe` exists.
    pub override_exe_is_file: bool,
    /// The chosen library folder exists.
    pub library_override_is_dir: bool,
    /// The Steam folder found in the registry or the usual places.
    pub detected_dir: Option<String>,
    /// `steam.exe` exists in the detected folder.
    pub steam_exe_is_file: bool,
    /// The detected Steam folder's primary library (see `primary_library`).
    pub primary_library: Option<String>,
}

/// The paths Steam detection settles on, or why it fails: a chosen
/// `steam.exe` that exists wins (its folder is Steam's, the library is the
/// chosen one when it exists, else Steam's folder); otherwise the detected
/// folder must exist and hold `steam.exe`, and the library is the chosen
/// one when it exists, else the primary library, else Steam's folder.
pub open spec fn spec_detect_steam(
    exe_override: Option<Seq<char>>,
    library_override: Option<Seq<char>>,
    override_exe_is_file: bool,
    library_override_is_dir: bool,
    detected_dir: Option<Seq<char>>,
    steam_exe_is_file: bool,
    primary: Option<Seq<char>>,
) -> Result<(Seq<char>, Seq<char>, Seq<char>), (int, Seq<char>)> {
    let chosen_lib = match library_override {
        Some(l) => if library_override_is_dir {
            Some(l)
        } else {
            None
        },
        None => None,
    };
    if exe_override is Some && override_exe_is_file {
        let exe = exe_override.unwrap();
        let dir = match crate::paths::parent(exe) {
            Some(p) => p,
            None => exe,
        };
        let lib = match chosen_lib {
            Some(l) => l,
            None => dir,
        };
        Ok((exe, dir, lib))
    } else {
        match detected_dir {
            None => Err((0, seq![])),
            Some(dir) => if !steam_exe_is_file {
                Err((1, dir))
            } else {
                let lib = match chosen_lib {
                    Some(l) => l,
                    None => match primary {
                        Some(p) => p,
                        None => dir,
                    },
                };
                Ok((crate::paths::spec_join(dir, "steam.exe"@), dir, lib))
            },
        }
    }
}

/// An optional string as an optional sequence.
pub open spec fn opt_seq(o: Option<String>) -> Option<Seq<char>> {
    match o {
        Some(s) => Some(s@),
        None => None,
    }
}

/// Finds Steam from the settings' choices and what the probe found.
pub fn detect_steam(settings: &crate::settings::AppSettings, probe: &SteamProbe) -> (r: Result<
    SteamPaths,
    GreenLumaError,
>)
    ensures
        r matches Ok(p) ==> spec_detect_steam(
            opt_seq(settings.steam_exe_override),
            opt_seq(settings.steam_library_override),
            probe.override_exe_is_file,
            probe.library_override_is_dir,
            opt_seq(probe.detected_dir),
            probe.steam_exe_is_file,
            opt_seq(probe.primary_library),
        ) == Ok::<(Seq<char>, Seq<char>, Seq<char>), (int, Seq<char>)>(
            (p.steam_exe@, p.steam_dir@, p.library_root@),
        ),
        r matches Err(e) ==> spec_detect_steam(
            opt_seq(settings.steam_exe_override),
            opt_seq(settings.steam_library_override),
            probe.override_exe_is_file,
            probe.library_override_is_dir,
            opt_seq(probe.detected_dir),
            probe.steam_exe_is_file,
            opt_seq(probe.primary_library),
        ) == match e {
            GreenLumaError::SteamExeMissing(d) => Err::<(Seq<char>, Seq<char>, Seq<char>), (int, Seq<char>)>((1, d@)),
            _ => Err((0, seq![])),
        },
        r matches Err(e) ==> (e is SteamNotFound || e is SteamExeMissing),
{
    let chosen_lib: Option<String> = match &settings.steam_library_override {
        Some(l) => if probe.library_override_is_dir {
            Some(l.clone())
        } else {
            None
        },
        None => None,
    };
    match &settings.steam_exe_override {
        Some(exe) => {
            if probe.override_exe_is_file {
                let dir = match crate::paths::parent_of(exe.as_str()) {
                    Some(p) => p,
                    None => exe.clone(),
                };
                let lib = match chosen_lib {
                    Some(l) => l,
                    None => dir.clone(),
                };
                return Ok(SteamPaths { steam_exe: exe.clone(), steam_dir: dir, library_root: lib });
            }
        },
        None => {},
    }
    match &probe.detected_dir {
        None => Err(GreenLumaError::SteamNotFound),
        Some(dir) => {
            if !probe.steam_exe_is_file {
                return Err(GreenLumaError::SteamExeMissing(dir.clone()));
            }
            let lib = match chosen_lib {
                Some(l) => l,
                None => match &probe.primary_library {
                    Some(p) => p.clone(),
                    None => dir.clone(),
                },
            };
            let exe = crate::paths::join(dir.as_str(), "steam.exe");
            Ok(SteamPaths { steam_exe: exe, steam_dir: dir.clone(), library_root: lib })
        },
    }
}

/// The primary library: with no `libraryfolders.vdf`, Steam's folder;
/// otherwise the first listed path that has a `steamapps` folder
/// (`has_steamapps[i]` for the `i`-th), else Steam's folder.
pub open spec fn spec_primary_library(
    steam_dir: Seq<char>,
    vdf: Option<Seq<char>>,
    has_steamapps: Seq<bool>,
) -> Seq<char> {
    match vdf {
        None => steam_dir,
        Some(text) => {
            let paths = spec_library_paths(text);
            if exists|i: int| 0 <= i < paths.len() && i < has_steamapps.len() && has_steamapps[i] {
                paths[choose|i: int|
                    0 <= i < paths.len() && i < has_steamapps.len() && has_steamapps[i] && forall|
                        j: int,
                    | 0 <= j < i ==> !(j < has_steamapps.len() && #[trigger] has_steamapps[j])]
            } else {
                steam_dir
            }
        },
    }
}

/// The primary Steam library, from `libraryfolders.vdf` (`None` when it is
/// absent) and which of its paths have a `steamapps` folder.
#[verifier::loop_isolation(false)]
pub fn primary_library(steam_dir: &str, vdf: Option<&str>, has_steamapps: &Vec<bool>) -> (r: String)
    ensures
        r@ == spec_primary_library(
            steam_dir@,
            match vdf {
                Some(t) => Some(t@),
                None => None,
            },
            has_steamapps@,
        ),
{
    match vdf {
        None => String::from_str(steam_dir),
        Some(text) => {
            let paths = library_paths(text);
            let ghost sp = spec_library_paths(text@);
            let mut i: usize = 0;
            while i < paths.len()
                invariant
                    i <= paths.len(),
                    paths@.len() == sp.len(),
                    sp == spec_library_paths(text@),
                    forall|k: int| 0 <= k < paths@.len() ==> #[trigger] paths@[k]@ == sp[k],
                    forall|j: int| 0 <= j < i ==> !(j < has_steamapps@.len() && #[trigger] has_steamapps@[j]),
                decreases paths.len() - i,
            {
                if i < has_steamapps.len() && has_steamapps[i] {
                    proof {
                        let w = choose|k: int|
                            0 <= k < sp.len() && k < has_steamapps@.len() && has_steamapps@[k] && forall|
                                j: int,
                            | 0 <= j < k ==> !(j < has_steamapps@.len() && #[trigger] has_steamapps@[j]);
                        assert(0 <= i < sp.len() && i < has_steamapps@.len() && has_steamapps@[i as int]);
                        if w < i {
                            assert(!(w < has_steamapps@.len() && has_steamapps@[w]));
                        } else if w > i {
                            assert(!(i < has_steamapps@.len() && has_steamapps@[i as int]));
                        }
                    }
                    return paths[i].clone();
                }
                i = i + 1;
            }
            String::from_str(steam_dir)
        },
    }
}

/// The library roots to watch: Steam's folder, then the paths of
/// `libraryfolders.vdf` that exist (`is_dir[i]` for the `i`-th) and are not
/// listed yet, then the chosen library when it exists and is not listed.
pub open spec fn spec_library_roots(
    steam_dir: Seq<char>,
    vdf: Option<Seq<char>>,
    is_dir: Seq<bool>,
    library_override: Option<Seq<char>>,
) -> Seq<Seq<char>> {
    let listed = match vdf {
        Some(text) => roots_fold(seq![steam_dir], spec_library_paths(text), is_dir, spec_library_paths(text).len() as int),
        None => seq![steam_dir],
    };
    match library_override {
        Some(o) => if listed.contains(o) {
            listed
        } else {
            listed.push(o)
        },
        None => listed,
    }
}

/// The first `k` paths added in order where they exist and are new.
pub open spec fn roots_fold(base: Seq<Seq<char>>, paths: Seq<Seq<char>>, is_dir: Seq<bool>, k: int) -> Seq<Seq<char>>
    decreases k,
{
    if k <= 0 {
        base
    } else {
        let acc = roots_fold(base, paths, is_dir, k - 1);
        if k - 1 < is_dir.len() && is_dir[k - 1] && !acc.contains(paths[k - 1]) {
            acc.push(paths[k - 1])
        } else {
            acc
        }
    }
}

fn contains_str_seq(v: &Vec<String>, s: &str) -> (r: bool)
    ensures
        r == crate::steam::strings_view(v@).contains(s@),
{
    let sv = chars_of(s);
    let mut i: usize = 0;
    while i < v.len()
        invariant
            i <= v.len(),
            sv@ == s@,
            forall|j: int| 0 <= j < i ==> v@[j]@ != s@,
        decreases v.len() - i,
    {
        if crate::text::eq_chars(&chars_of(v[i].as_str()), &sv) {
            assert(crate::steam::strings_view(v@)[i as int] == s@);
            return true;
        }
        i = i + 1;
    }
    proof {
        if crate::steam::strings_view(v@).contains(s@) {
            let j = choose|j: int| 0 <= j < v@.len() && #[trigger] crate::steam::strings_view(v@)[j] == s@;
            assert(v@[j]@ == s@);
        }
    }
    false
}

/// The library roots to watch for downloads.
pub fn library_roots(
    steam_dir: &str,
    vdf: Option<&str>,
    is_dir: &Vec<bool>,
    library_override: Option<&str>,
) -> (r: Vec<String>)
    ensures
        crate::steam::strings_view(r@) == spec_library_roots(
            steam_dir@,
            match vdf {
                Some(t) => Some(t@),
                None => None,
            },
            is_dir@,
            match library_override {
                Some(o) => Some(o@),
                None => None,
            },
        ),
{
    let mut roots: Vec<String> = Vec::new();
    roots.push(String::from_str(steam_dir));
    let ghost base = seq![steam_dir@];
    assert(crate::steam::strings_view(roots@) =~= base);
    match vdf {
        Some(text) => {
            let paths = library_paths(text);
            let ghost sp = spec_library_paths(text@);
            let mut i: usize = 0;
            while i < paths.len()
                invariant
                    i <= paths.len(),
                    paths@.len() == sp.len(),
                    sp == spec_library_paths(text@),
                    forall|k: int| 0 <= k < paths@.len() ==> #[trigger] paths@[k]@ == sp[k],
                    crate::steam::strings_view(roots@) == roots_fold(base, sp, is_dir@, i as int),
                decreases paths.len() - i,
            {
                if i < is_dir.len() && is_dir[i] && !contains_str_seq(&roots, paths[i].as_str()) {
                    let ghost before = roots@;
                    roots.push(paths[i].clone());
                    assert(crate::steam::strings_view(roots@) =~= crate::steam::strings_view(before).push(sp[i as int]));
                }
                i = i + 1;
            }
        },
        None => {},
    }
    match library_override {
        Some(o) => {
            if !contains_str_seq(&roots, o) {
                let ghost before = roots@;
                roots.push(String::from_str(o));
                assert(crate::steam::strings_view(roots@) =~= crate::steam::strings_view(before).push(o@));
            }
        },
        None => {},
    }
    roots
}

// ---------------------------------------------------------------------------
// Active downloads
// ---------------------------------------------------------------------------

/// One entry of `steamapps/downloading` or `steamapps/temp`.
pub struct DownloadDirEntry {
    pub name: String,
    pub is_dir: bool,
    /// The folder holds at least one entry.
    pub has_entries: bool,
    /// The name the library's manifest for this app id gives, if any.
    pub acf_name: Option<String>,
}

/// What one library shows of downloads.
pub struct LibraryScan {
    pub downloading: Vec<DownloadDirEntry>,
    pub temp: Vec<DownloadDirEntry>,
    /// The files of `steamapps`: name and text (`None` when unreadable).
    pub manifests: Vec<(String, Option<String>)>,
}

/// A hit is added unless its app id is already listed.
pub open spec fn push_hit(acc: Seq<(u32, Seq<char>)>, app_id: u32, name: Seq<char>) -> Seq<(u32, Seq<char>)> {
    if exists|k: int| 0 <= k < acc.len() && acc[k].0 == app_id {
        acc
    } else {
        acc.push((app_id, name))
    }
}

/// A `downloading` or `temp` entry: a non-empty folder named by an app id
/// is a hit, named by the library's manifest or `App <id>`.
pub open spec fn dir_step(acc: Seq<(u32, Seq<char>)>, e: DownloadDirEntry) -> Seq<(u32, Seq<char>)> {
    if !e.is_dir {
        acc
    } else {
        match parse_uint(e.name@, u32::MAX as nat) {
            None => acc,
            Some(id) => if !e.has_entries {
                acc
            } else {
                push_hit(
                    acc,
                    id as u32,
                    match e.acf_name {
                        Some(n) => n@,
                        None => app_label(id),
                    },
                )
            },
        }
    }
}

/// The first `k` entries applied in order.
pub open spec fn dir_fold(acc: Seq<(u32, Seq<char>)>, es: Seq<DownloadDirEntry>, k: int) -> Seq<(u32, Seq<char>)>
    decreases k,
{
    if k <= 0 {
        acc
    } else {
        dir_step(dir_fold(acc, es, k - 1), es[k - 1])
    }
}

/// Every leading `p` removed (`str::trim_start_matches`).
pub open spec fn strip_prefixes(s: Seq<char>, p: Seq<char>) -> Seq<char>
    decreases s.len(),
{
    if p.len() > 0 && crate::text::starts_with(s, p) {
        strip_prefixes(s.skip(p.len() as int), p)
    } else {
        s
    }
}

/// Every trailing `p` removed (`str::trim_end_matches`).
pub open spec fn strip_suffixes(s: Seq<char>, p: Seq<char>) -> Seq<char>
    decreases s.len(),
{
    if p.len() > 0 && crate::text::ends_with(s, p) {
        strip_suffixes(s.take(s.len() - p.len()), p)
    } else {
        s
    }
}

/// The name a manifest gives (trimmed, not blank), if any.
pub open spec fn manifest_name(text: Seq<char>) -> Option<Seq<char>> {
    match capture_acf(text, "name"@) {
        Some(n) => if trim(n).len() > 0 {
            Some(trim(n))
        } else {
            None
        },
        None => None,
    }
}

/// A `steamapps` file: an `appmanifest_*.acf` (file name compared in ASCII
/// lower case) that looks like a download in progress is a hit; its app id
/// is the manifest's `appid`, else the number in the file name; its name
/// the manifest's, else `App <id>`.
pub open spec fn manifest_step(acc: Seq<(u32, Seq<char>)>, f: (Seq<char>, Option<Seq<char>>)) -> Seq<(u32, Seq<char>)> {
    let lower = crate::text::ascii_lower_seq(f.0);
    if !crate::text::starts_with(lower, "appmanifest_"@) || !crate::text::ends_with(lower, ".acf"@) {
        acc
    } else {
        match f.1 {
            None => acc,
            Some(text) => if !spec_acf_looks_downloading(text) {
                acc
            } else {
                let from_text = match capture_acf(text, "appid"@) {
                    Some(a) => parse_uint(a, u32::MAX as nat),
                    None => None,
                };
                let id = match from_text {
                    Some(n) => Some(n),
                    None => parse_uint(
                        strip_suffixes(strip_prefixes(lower, "appmanifest_"@), ".acf"@),
                        u32::MAX as nat,
                    ),
                };
                match id {
                    None => acc,
                    Some(n) => push_hit(
                        acc,
                        n as u32,
                        match manifest_name(text) {
                            Some(m) => m,
                            None => app_label(n),
                        },
                    ),
                }
            },
        }
    }
}

/// The first `k` files applied in order.
pub open spec fn manifest_fold(acc: Seq<(u32, Seq<char>)>, fs: Seq<(Seq<char>, Option<Seq<char>>)>, k: int) -> Seq<(u32, Seq<char>)>
    decreases k,
{
    if k <= 0 {
        acc
    } else {
        manifest_step(manifest_fold(acc, fs, k - 1), fs[k - 1])
    }
}

/// The manifest files as values.
pub open spec fn manifests_view(v: Seq<(String, Option<String>)>) -> Seq<(Seq<char>, Option<Seq<char>>)> {
    v.map_values(|f: (String, Option<String>)| (f.0@, opt_seq(f.1)))
}

/// One library scanned: `downloading`, then `temp`, then the manifests.
pub open spec fn library_step(acc: Seq<(u32, Seq<char>)>, l: LibraryScan) -> Seq<(u32, Seq<char>)> {
    let a = dir_fold(acc, l.downloading@, l.downloading@.len() as int);
    let b = dir_fold(a, l.temp@, l.temp@.len() as int);
    manifest_fold(b, manifests_view(l.manifests@), l.manifests@.len() as int)
}

/// The first `k` libraries scanned in order.
pub open spec fn libraries_fold(ls: Seq<LibraryScan>, k: int) -> Seq<(u32, Seq<char>)>
    decreases k,
{
    if k <= 0 {
        seq![]
    } else {
        library_step(libraries_fold(ls, k - 1), ls[k - 1])
    }
}

/// Hits as values.
pub open spec fn hits_view(v: Seq<(u32, String)>) -> Seq<(u32, Seq<char>)> {
    v.map_values(|h: (u32, String)| (h.0, h.1@))
}

fn push_hit_exec(out: &mut Vec<(u32, String)>, app_id: u32, name: String)
    ensures
        hits_view(final(out)@) == push_hit(hits_view(old(out)@), app_id, name@),
{
    let mut k: usize = 0;
    while k < out.len()
        invariant
            k <= out.len(),
            forall|j: int| 0 <= j < k ==> #[trigger] out@[j].0 != app_id,
        decreases out.len() - k,
    {
        if out[k].0 == app_id {
            assert(hits_view(out@)[k as int].0 == app_id);
            return;
        }
        k = k + 1;
    }
    proof {
        assert forall|j: int| !(0 <= j < hits_view(out@).len() && #[trigger] hits_view(out@)[j].0 == app_id) by {
            if 0 <= j < hits_view(out@).len() {
                assert(hits_view(out@)[j].0 == out@[j].0);
            }
        }
    }
    let ghost before = out@;
    out.push((app_id, name));
    assert(hits_view(out@) =~= hits_view(before).push((app_id, name@)));
}

fn scan_dir_entries(out: &mut Vec<(u32, String)>, es: &Vec<DownloadDirEntry>)
    ensures
        hits_view(final(out)@) == dir_fold(hits_view(old(out)@), es@, es@.len() as int),
{
    let mut k: usize = 0;
    while k < es.len()
        invariant
            k <= es.len(),
            hits_view(out@) == dir_fold(hits_view(old(out)@), es@, k as int),
        decreases es.len() - k,
    {
        let e = &es[k];
        if e.is_dir {
            match crate::text::parse_u32(e.name.as_str()) {
                Some(id) => {
                    if e.has_entries {
                        let name = match &e.acf_name {
                            Some(n) => n.clone(),
                            None => app_label_string(id as u64),
                        };
                        push_hit_exec(out, id, name);
                    }
                },
                None => {},
            }
        }
        k = k + 1;
    }
}

fn strip_prefixes_exec(v: &Vec<char>, p: &Vec<char>) -> (r: usize)
    requires
        p@.len() > 0,
    ensures
        r <= v.len(),
        v@.skip(r as int) == strip_prefixes(v@, p@),
{
    let mut a: usize = 0;
    assert(v@.skip(0) =~= v@);
    while a <= v.len() && v.len() - a >= p.len() && crate::text::occurs_at_exec(v, p, a)
        invariant
            a <= v.len(),
            p@.len() > 0,
            strip_prefixes(v@, p@) == strip_prefixes(v@.skip(a as int), p@),
        decreases v.len() - a,
    {
        proof {
            let t = v@.skip(a as int);
            assert(t.subrange(0, p@.len() as int) =~= v@.subrange(a as int, a + p@.len()));
            assert(crate::text::starts_with(t, p@));
            assert(t.skip(p@.len() as int) =~= v@.skip(a + p@.len()));
        }
        a = a + p.len();
    }
    proof {
        let t = v@.skip(a as int);
        if crate::text::starts_with(t, p@) {
            assert(t.subrange(0, p@.len() as int) =~= v@.subrange(a as int, a + p@.len()));
        }
    }
    a
}

fn strip_suffixes_exec(v: &Vec<char>, lo: usize, p: &Vec<char>) -> (r: usize)
    requires
        p@.len() > 0,
        lo <= v.len(),
    ensures
        lo <= r <= v.len(),
        v@.subrange(lo as int, r as int) == strip_suffixes(v@.subrange(lo as int, v@.len() as int), p@),
{
    let mut b: usize = v.len();
    while b - lo >= p.len() && crate::text::occurs_at_exec(v, p, b - p.len())
        invariant
            lo <= b <= v.len(),
            p@.len() > 0,
            strip_suffixes(v@.subrange(lo as int, v@.len() as int), p@) == strip_suffixes(
                v@.subrange(lo as int, b as int),
                p@,
            ),
        decreases b,
    {
        proof {
            let t = v@.subrange(lo as int, b as int);
            assert(t.subrange(t.len() - p@.len(), t.len() as int) =~= v@.subrange(b - p@.len(), b as int));
            assert(crate::text::ends_with(t, p@));
            assert(t.take(t.len() - p@.len()) =~= v@.subrange(lo as int, b - p@.len()));
        }
        b = b - p.len();
    }
    proof {
        let t = v@.subrange(lo as int, b as int);
        if crate::text::ends_with(t, p@) {
            assert(t.subrange(t.len() - p@.len(), t.len() as int) =~= v@.subrange(b - p@.len(), b as int));
        }
    }
    b
}

/// The name a manifest gives (trimmed, not blank), if any.
pub fn acf_display_name(text: &str) -> (r: Option<String>)
    ensures
        opt_seq(r) == manifest_name(text@),
{
    let v = chars_of(text);
    match capture_acf_exec(&v, "name") {
        Some(n) => {
            let t = crate::text::trim_str(n.as_str());
            if t.as_str().is_empty() {
                None
            } else {
                Some(t)
            }
        },
        None => None,
    }
}

fn scan_manifests(out: &mut Vec<(u32, String)>, fs: &Vec<(String, Option<String>)>)
    ensures
        hits_view(final(out)@) == manifest_fold(hits_view(old(out)@), manifests_view(fs@), fs@.len() as int),
{
    let prefix = chars_of("appmanifest_");
    let suffix = chars_of(".acf");
    proof {
        reveal_strlit("appmanifest_");
        reveal_strlit(".acf");
    }
    let mut k: usize = 0;
    while k < fs.len()
        invariant
            k <= fs.len(),
            prefix@ == "appmanifest_"@,
            suffix@ == ".acf"@,
            prefix@.len() > 0,
            suffix@.len() > 0,
            hits_view(out@) == manifest_fold(hits_view(old(out)@), manifests_view(fs@), k as int),
        decreases fs.len() - k,
    {
        let f = &fs[k];
        assert(manifests_view(fs@)[k as int] == (f.0@, opt_seq(f.1)));
        let raw = chars_of(f.0.as_str());
        let mut lower: Vec<char> = Vec::new();
        let mut j: usize = 0;
        while j < raw.len()
            invariant
                j <= raw.len(),
                lower@ == crate::text::ascii_lower_seq(raw@.take(j as int)),
            decreases raw.len() - j,
        {
            lower.push(crate::text::ascii_lower_char(raw[j]));
            assert(lower@ =~= crate::text::ascii_lower_seq(raw@.take(j + 1)));
            j = j + 1;
        }
        assert(raw@.take(raw.len() as int) =~= raw@);
        if crate::text::starts_with_exec(&lower, &prefix) && crate::text::ends_with_exec(&lower, &suffix) {
            match &f.1 {
                None => {},
                Some(text) => {
                    if acf_looks_downloading(text.as_str()) {
                        let tv = chars_of(text.as_str());
                        let from_text = match capture_acf_exec(&tv, "appid") {
                            Some(a) => crate::text::parse_u32(a.as_str()),
                            None => None,
                        };
                        let id = match from_text {
                            Some(n) => Some(n),
                            None => {
                                let a = strip_prefixes_exec(&lower, &prefix);
                                let b = strip_suffixes_exec(&lower, a, &suffix);
                                assert(lower@.subrange(a as int, lower@.len() as int) =~= lower@.skip(a as int));
                                crate::text::parse_u32_range(&lower, a, b)
                            },
                        };
                        match id {
                            None => {},
                            Some(n) => {
                                let name = match acf_display_name(text.as_str()) {
                                    Some(m) => m,
                                    None => app_label_string(n as u64),
                                };
                                push_hit_exec(out, n, name);
                            },
                        }
                    }
                },
            }
        }
        k = k + 1;
    }
}

/// App ids with a download or update in progress, each once, with a
/// display name: for each library in order, the non-empty numbered folders
/// of `downloading` and `temp`, then the manifests that look like a
/// download.
pub fn scan_active_downloads(libraries: &Vec<LibraryScan>) -> (r: Vec<(u32, String)>)
    ensures
        hits_view(r@) == libraries_fold(libraries@, libraries@.len() as int),
{
    let mut out: Vec<(u32, String)> = Vec::new();
    let mut k: usize = 0;
    assert(hits_view(out@) =~= Seq::<(u32, Seq<char>)>::empty());
    while k < libraries.len()
        invariant
            k <= libraries.len(),
            hits_view(out@) == libraries_fold(libraries@, k as int),
        decreases libraries.len() - k,
    {
        let l = &libraries[k];
        scan_dir_entries(&mut out, &l.downloading);
        scan_dir_entries(&mut out, &l.temp);
        scan_manifests(&mut out, &l.manifests);
        k = k + 1;
    }
    out
}

/// Each app id is reported once.
pub proof fn law_download_hits_distinct(ls: Seq<LibraryScan>, k: int)
    ensures
        forall|i: int, j: int|
            0 <= i < j < libraries_fold(ls, k).len() ==> libraries_fold(ls, k)[i].0 != libraries_fold(ls, k)[j].0,
    decreases k,
{
    if k > 0 {
        law_download_hits_distinct(ls, k - 1);
        lemma_library_step_distinct(libraries_fold(ls, k - 1), ls[k - 1]);
    }
}

/// The hit list stays free of repeated app ids.
pub open spec fn hits_distinct(acc: Seq<(u32, Seq<char>)>) -> bool {
    forall|i: int, j: int| 0 <= i < j < acc.len() ==> acc[i].0 != acc[j].0
}

proof fn lemma_dir_fold_distinct(acc: Seq<(u32, Seq<char>)>, es: Seq<DownloadDirEntry>, k: int)
    requires
        hits_distinct(acc),
    ensures
        hits_distinct(dir_fold(acc, es, k)),
    decreases k,
{
    if k > 0 {
        lemma_dir_fold_distinct(acc, es, k - 1);
    }
}

proof fn lemma_manifest_fold_distinct(acc: Seq<(u32, Seq<char>)>, fs: Seq<(Seq<char>, Option<Seq<char>>)>, k: int)
    requires
        hits_distinct(acc),
    ensures
        hits_distinct(manifest_fold(acc, fs, k)),
    decreases k,
{
    if k > 0 {
        lemma_manifest_fold_distinct(acc, fs, k - 1);
    }
}

proof fn lemma_library_step_distinct(acc: Seq<(u32, Seq<char>)>, l: LibraryScan)
    requires
        hits_distinct(acc),
    ensures
        hits_distinct(library_step(acc, l)),
{
    lemma_dir_fold_distinct(acc, l.downloading@, l.downloading@.len() as int);
    let a = dir_fold(acc, l.downloading@, l.downloading@.len() as int);
    lemma_dir_fold_distinct(a, l.temp@, l.temp@.len() as int);
    let b = dir_fold(a, l.temp@, l.temp@.len() as int);
    lemma_manifest_fold_distinct(b, manifests_view(l.manifests@), l.manifests@.len() as int);
}

// ---------------------------------------------------------------------------
// Running processes
// ---------------------------------------------------------------------------

/// `tasklist /FI "IMAGENAME eq <image>" /NH` printed the image: its output,
/// lower-cased, contains the image name, lower-cased.
pub open spec fn spec_process_running(tasklist_output: Seq<char>, image: Seq<char>) -> bool {
    contains(unicode_lowercase(tasklist_output), unicode_lowercase(image))
}

/// Whether lower-cased `tasklist` output lists a lower-cased image name.
pub fn lists_image(lowered_output: &str, lowered_image: &str) -> (r: bool)
    ensures
        r == contains(lowered_output@, lowered_image@),
{
    crate::text::contains_exec(&chars_of(lowered_output), &chars_of(lowered_image))
}

/// Whether `tasklist`'s output for an image name lists that image.
pub fn process_running(tasklist_output: &str, image: &str) -> (r: bool)
    ensures
        r == spec_process_running(tasklist_output@, image@),
{
    let out = to_lowercase(tasklist_output);
    let img = to_lowercase(image);
    lists_image(out.as_str(), img.as_str())
}

/// Whether Steam runs, from `tasklist`'s output for `steam.exe`.
pub fn is_steam_running(tasklist_output: &str) -> (r: bool)
    ensures
        r == spec_process_running(tasklist_output@, "steam.exe"@),
{
    process_running(tasklist_output, "steam.exe")
}

/// The marker of a game folder in a process's image path.
pub open spec fn common_marker() -> Seq<char> {
    "\\steamapps\\common\\"@
}

/// Helper programs that live under `steamapps\common` but are not games.
pub open spec fn non_game_markers() -> Seq<Seq<char>> {
    seq![
        "\\steamworks shared\\"@,
        "\\steamworks redistributable"@,
        "\\directx"@,
        "\\vcredist"@,
        "\\dotnet"@,
        "\\easyanticheat"@,
        "\\battleye"@,
        "\\uninstall"@,
        "crashhandler"@,
        "crashreport"@,
        "redist\\"@,
    ]
}

/// An image path (ASCII lower-cased) under `steamapps\common` that is a
/// helper rather than a game.
pub open spec fn spec_is_non_game_path(path: Seq<char>) -> bool {
    let p = crate::text::ascii_lower_seq(path);
    exists|i: int| 0 <= i < non_game_markers().len() && contains(p, #[trigger] non_game_markers()[i])
}

fn ascii_lower_vec(s: &str) -> (r: Vec<char>)
    ensures
        r@ == crate::text::ascii_lower_seq(s@),
{
    let raw = chars_of(s);
    let mut lower: Vec<char> = Vec::new();
    let mut j: usize = 0;
    while j < raw.len()
        invariant
            j <= raw.len(),
            lower@ == crate::text::ascii_lower_seq(raw@.take(j as int)),
        decreases raw.len() - j,
    {
        lower.push(crate::text::ascii_lower_char(raw[j]));
        assert(lower@ =~= crate::text::ascii_lower_seq(raw@.take(j + 1)));
        j = j + 1;
    }
    assert(raw@.take(raw.len() as int) =~= raw@);
    lower
}

/// Whether an image path is a helper under `steamapps\common`.
pub fn is_non_game_steamapps_path(path: &str) -> (r: bool)
    ensures
        r == spec_is_non_game_path(path@),
{
    let p = ascii_lower_vec(path);
    let markers: [&str; 11] = [
        "\\steamworks shared\\",
        "\\steamworks redistributable",
        "\\directx",
        "\\vcredist",
        "\\dotnet",
        "\\easyanticheat",
        "\\battleye",
        "\\uninstall",
        "crashhandler",
        "crashreport",
        "redist\\",
    ];
    assert(forall|i: int| 0 <= i < 11 ==> (#[trigger] markers@[i])@ == non_game_markers()[i]);
    let mut i: usize = 0;
    while i < 11
        invariant
            i <= 11,
            markers@.len() == 11,
            p@ == crate::text::ascii_lower_seq(path@),
            forall|k: int| 0 <= k < 11 ==> (#[trigger] markers@[k])@ == non_game_markers()[k],
            forall|k: int| 0 <= k < i ==> !contains(p@, #[trigger] non_game_markers()[k]),
        decreases 11 - i,
    {
        if crate::text::contains_exec(&p, &chars_of(markers[i])) {
            assert(contains(p@, non_game_markers()[i as int]));
            return true;
        }
        i = i + 1;
    }
    false
}

/// A game session is on when a process under `steamapps\common` that is
/// not a helper runs (`paths`: the lower-cased image paths of all
/// processes, `None` when they could not be listed).
pub open spec fn spec_steamapps_game_running(paths: Option<Seq<Seq<char>>>) -> bool {
    paths is Some && exists|i: int|
        0 <= i < paths.unwrap().len() && #[trigger] is_game_path(paths.unwrap()[i])
}

proof fn lemma_game_running(ps: Seq<Seq<char>>, i: int)
    requires
        0 <= i < ps.len(),
        is_game_path(ps[i]),
    ensures
        spec_steamapps_game_running(Some(ps)),
{
    assert(exists|j: int| 0 <= j < ps.len() && #[trigger] is_game_path(ps[j]));
    assert(Some(ps).unwrap() == ps);
    assert(Some(ps).unwrap()[i] == ps[i]);
    assert(is_game_path(Some(ps).unwrap()[i]));
}

/// An image path under `steamapps\common` that is not a helper.
pub open spec fn is_game_path(p: Seq<char>) -> bool {
    contains(p, common_marker()) && !spec_is_non_game_path(p)
}

/// The image paths of all processes, as values.
pub open spec fn paths_view(paths: Option<Vec<String>>) -> Option<Seq<Seq<char>>> {
    match paths {
        Some(v) => Some(crate::steam::strings_view(v@)),
        None => None,
    }
}

/// Whether a game under `steamapps\common` is running.
#[verifier::loop_isolation(false)]
pub fn steamapps_common_process_running(paths: &Option<Vec<String>>) -> (r: bool)
    ensures
        r == spec_steamapps_game_running(paths_view(*paths)),
{
    match paths {
        None => false,
        Some(ps) => {
            let ghost sv = crate::steam::strings_view(ps@);
            let marker = chars_of("\\steamapps\\common\\");
            let mut i: usize = 0;
            while i < ps.len()
                invariant
                    i <= ps.len(),
                    sv == crate::steam::strings_view(ps@),
                    marker@ == common_marker(),
                    forall|k: int| 0 <= k < i ==> !#[trigger] is_game_path(sv[k]),
                decreases ps.len() - i,
            {
                assert(sv[i as int] == ps@[i as int]@);
                let c = crate::text::contains_exec(&chars_of(ps[i].as_str()), &marker);
                if c && !is_non_game_steamapps_path(ps[i].as_str()) {
                    proof {
                        assert(paths_view(*paths) == Some(sv));
                        assert(0 <= i < sv.len());
                        lemma_game_running(sv, i as int);
                    }
                    return true;
                }
                i = i + 1;
            }
            false
        },
    }
}

/// A path with `/` turned into `\` and ASCII lower-cased.
pub open spec fn normalized_path(p: Seq<char>) -> Seq<char> {
    crate::text::ascii_lower_seq(p.map_values(|c: char| if c == '/' { '\\' } else { c }))
}

/// The image paths whose file name is `name` up to ASCII case.
pub open spec fn images_named(paths: Seq<Seq<char>>, name: Seq<char>) -> Seq<Seq<char>> {
    paths.filter(|p: Seq<char>| crate::text::eq_ignore_ascii_case(crate::paths::file_name(p), name))
}

/// One tracked game (its executable `exe`, whether a process with its file
/// name runs) keeps a session on: its process runs, and either the image
/// paths could not be confirmed, or one of the paths with its file name is
/// (or ends with) the game's path, or lies under `steamapps\common`.
pub open spec fn spec_tracked_game_running(exe: Seq<char>, running: bool, paths: Option<Seq<Seq<char>>>) -> bool {
    let name = crate::paths::file_name(exe);
    if name.len() == 0 || !running {
        false
    } else if matched_images(exe, paths).len() == 0 {
        true
    } else {
        let want = normalized_path(exe);
        (exists|i: int|
            0 <= i < matched_images(exe, paths).len() && #[trigger] same_or_suffix(
                matched_images(exe, paths)[i],
                want,
            )) || (exists|i: int|
            0 <= i < matched_images(exe, paths).len() && contains(
                #[trigger] matched_images(exe, paths)[i],
                common_marker(),
            ))
    }
}

/// The image paths named like the executable's file.
pub open spec fn matched_images(exe: Seq<char>, paths: Option<Seq<Seq<char>>>) -> Seq<Seq<char>> {
    match paths {
        Some(ps) => images_named(ps, crate::paths::file_name(exe)),
        None => seq![],
    }
}

/// `p` is `want` or ends with it.
pub open spec fn same_or_suffix(p: Seq<char>, want: Seq<char>) -> bool {
    p == want || crate::text::ends_with(p, want)
}

/// Whether the `i`-th game's process was seen running.
pub open spec fn running_at(running: Seq<bool>, i: int) -> bool {
    0 <= i < running.len() && running[i]
}

/// A game session is on: a tracked game runs, or a game under
/// `steamapps\common` does.
pub open spec fn spec_is_game_session_active(
    games: Seq<crate::games::TrackedGame>,
    running: Seq<bool>,
    paths: Option<Seq<Seq<char>>>,
) -> bool {
    (exists|i: int| 0 <= i < games.len() && #[trigger] spec_tracked_game_running(games[i].exe_path@, running_at(running, i), paths))
        || spec_steamapps_game_running(paths)
}

fn normalized_path_exec(p: &str) -> (r: Vec<char>)
    ensures
        r@ == normalized_path(p@),
{
    let raw = chars_of(p);
    let mut out: Vec<char> = Vec::new();
    let mut j: usize = 0;
    while j < raw.len()
        invariant
            j <= raw.len(),
            out@ == normalized_path(raw@.take(j as int)),
        decreases raw.len() - j,
    {
        let c = if raw[j] == '/' { '\\' } else { raw[j] };
        out.push(crate::text::ascii_lower_char(c));
        assert(out@ =~= normalized_path(raw@.take(j + 1)));
        j = j + 1;
    }
    assert(raw@.take(raw.len() as int) =~= raw@);
    out
}

fn images_named_exec(paths: &Vec<String>, name: &str) -> (r: Vec<String>)
    ensures
        crate::steam::strings_view(r@) == images_named(crate::steam::strings_view(paths@), name@),
{
    let ghost sv = crate::steam::strings_view(paths@);
    let ghost pred = |p: Seq<char>| crate::text::eq_ignore_ascii_case(crate::paths::file_name(p), name@);
    let mut out: Vec<String> = Vec::new();
    let mut k: usize = 0;
    while k < paths.len()
        invariant
            k <= paths.len(),
            sv == crate::steam::strings_view(paths@),
            pred == (|p: Seq<char>| crate::text::eq_ignore_ascii_case(crate::paths::file_name(p), name@)),
            crate::steam::strings_view(out@) == sv.take(k as int).filter(pred),
        decreases paths.len() - k,
    {
        proof {
            sv.take(k as int).lemma_filter_push(sv[k as int], pred);
            assert(sv.take(k as int).push(sv[k as int]) =~= sv.take(k + 1));
            assert(sv[k as int] == paths@[k as int]@);
        }
        let f = crate::paths::file_name_of(paths[k].as_str());
        if eq_ignore_ascii_case_str(f.as_str(), name) {
            let ghost before = out@;
            out.push(paths[k].clone());
            assert(crate::steam::strings_view(out@) =~= crate::steam::strings_view(before).push(sv[k as int]));
        }
        k = k + 1;
    }
    assert(sv.take(paths.len() as int) =~= sv);
    out
}

/// Whether a tracked game keeps a session on.
#[verifier::loop_isolation(false)]
pub fn tracked_game_process_running(exe: &str, running: bool, paths: &Option<Vec<String>>) -> (r: bool)
    ensures
        r == spec_tracked_game_running(exe@, running, paths_view(*paths)),
{
    let name = crate::paths::file_name_of(exe);
    if name.as_str().is_empty() || !running {
        return false;
    }
    let matched = match paths {
        Some(ps) => images_named_exec(ps, name.as_str()),
        None => Vec::new(),
    };
    let ghost mv = crate::steam::strings_view(matched@);
    proof {
        if paths.is_none() {
            assert(mv =~= Seq::<Seq<char>>::empty());
        }
        assert(mv == matched_images(exe@, paths_view(*paths)));
    }
    if matched.len() == 0 {
        return true;
    }
    let want = normalized_path_exec(exe);
    let marker = chars_of("\\steamapps\\common\\");
    let mut i: usize = 0;
    while i < matched.len()
        invariant
            i <= matched.len(),
            mv == crate::steam::strings_view(matched@),
            mv == matched_images(exe@, paths_view(*paths)),
            forall|j: int| 0 <= j < i ==> !#[trigger] same_or_suffix(mv[j], want@),
        decreases matched.len() - i,
    {
        let m = chars_of(matched[i].as_str());
        assert(mv[i as int] == matched@[i as int]@);
        if crate::text::eq_chars(&m, &want) || crate::text::ends_with_exec(&m, &want) {
            assert(same_or_suffix(matched_images(exe@, paths_view(*paths))[i as int], normalized_path(exe@)));
            return true;
        }
        i = i + 1;
    }
    let mut i: usize = 0;
    while i < matched.len()
        invariant
            i <= matched.len(),
            mv == crate::steam::strings_view(matched@),
            marker@ == common_marker(),
            mv == matched_images(exe@, paths_view(*paths)),
            forall|j: int| 0 <= j < i ==> !contains(#[trigger] mv[j], common_marker()),
        decreases matched.len() - i,
    {
        assert(mv[i as int] == matched@[i as int]@);
        if crate::text::contains_exec(&chars_of(matched[i].as_str()), &marker) {
            assert(contains(matched_images(exe@, paths_view(*paths))[i as int], common_marker()));
            return true;
        }
        i = i + 1;
    }
    false
}

/// Whether a game session is on, from the tracked games, whether a process
/// with each one's file name runs (`running[i]` for the `i`-th, missing
/// entries count as not running), and the image paths of all processes
/// (`None` when they could not be listed).
#[verifier::loop_isolation(false)]
pub fn is_game_session_active(
    games: &Vec<crate::games::TrackedGame>,
    running: &Vec<bool>,
    paths: &Option<Vec<String>>,
) -> (r: bool)
    ensures
        r == spec_is_game_session_active(games@, running@, paths_view(*paths)),
{
    let mut i: usize = 0;
    while i < games.len()
        invariant
            i <= games.len(),
            forall|j: int| 0 <= j < i ==> !#[trigger] spec_tracked_game_running(
                games@[j].exe_path@,
                running_at(running@, j),
                paths_view(*paths),
            ),
        decreases games.len() - i,
    {
        let run = i < running.len() && running[i];
        assert(run == running_at(running@, i as int));
        if tracked_game_process_running(games[i].exe_path.as_str(), run, paths) {
            assert(spec_tracked_game_running(
                games@[i as int].exe_path@,
                running_at(running@, i as int),
                paths_view(*paths),
            ));
            return true;
        }
        i = i + 1;
    }
    steamapps_common_process_running(paths)
}

// ---------------------------------------------------------------------------
// Starting Steam with GreenLuma
// ---------------------------------------------------------------------------

/// One step of starting Steam.
#[derive(Debug, Clone, Copy, PartialEq, Eq, Structural)]
pub enum SteamStep {
    /// Check the GreenLuma install (`verify_install`); stop on failure.
    VerifyInstall,
    /// Write `DLLInjector.ini` and `NoQuestion.bin`; stop on failure.
    WriteInjectorIni,
    /// Sync the AppList folders; a failure is ignored.
    SyncAppList,
    /// Quit Steam if it runs (see `shutdown_next`); stop on failure.
    ShutdownSteam,
    /// Start `DLLInjector.exe`; stop on failure.
    SpawnInjector,
    /// Remember that Steam was last started with GreenLuma.
    MarkGreenLumaMode,
}

/// The steps to start Steam through GreenLuma's injector; none past the
/// preparation when Steam already runs.
pub open spec fn start_steps(steam_running: bool) -> Seq<SteamStep> {
    if steam_running {
        seq![SteamStep::VerifyInstall, SteamStep::WriteInjectorIni, SteamStep::SyncAppList]
    } else {
        seq![
            SteamStep::VerifyInstall,
            SteamStep::WriteInjectorIni,
            SteamStep::SyncAppList,
            SteamStep::SpawnInjector,
            SteamStep::MarkGreenLumaMode,
        ]
    }
}

/// The steps to quit Steam and start it again through GreenLuma's
/// injector.
pub open spec fn restart_steps() -> Seq<SteamStep> {
    seq![
        SteamStep::VerifyInstall,
        SteamStep::WriteInjectorIni,
        SteamStep::SyncAppList,
        SteamStep::ShutdownSteam,
        SteamStep::SpawnInjector,
        SteamStep::MarkGreenLumaMode,
    ]
}

/// The steps to start Steam through GreenLuma's injector; none past the
/// preparation when Steam already runs.
pub fn start_steam_injected(steam_running: bool) -> (r: Vec<SteamStep>)
    ensures
        r@ == start_steps(steam_running),
{
    let mut v = vec![SteamStep::VerifyInstall, SteamStep::WriteInjectorIni, SteamStep::SyncAppList];
    if !steam_running {
        v.push(SteamStep::SpawnInjector);
        v.push(SteamStep::MarkGreenLumaMode);
    }
    assert(steam_running ==> v@ =~= seq![SteamStep::VerifyInstall, SteamStep::WriteInjectorIni, SteamStep::SyncAppList]);
    assert(!steam_running ==> v@ =~= seq![
        SteamStep::VerifyInstall,
        SteamStep::WriteInjectorIni,
        SteamStep::SyncAppList,
        SteamStep::SpawnInjector,
        SteamStep::MarkGreenLumaMode,
    ]);
    v
}

/// The steps to quit Steam and start it again through GreenLuma's injector,
/// so that a fresh AppList is loaded.
pub fn restart_steam_injected() -> (r: Vec<SteamStep>)
    ensures
        r@ == restart_steps(),
{
    let v = vec![
        SteamStep::VerifyInstall,
        SteamStep::WriteInjectorIni,
        SteamStep::SyncAppList,
        SteamStep::ShutdownSteam,
        SteamStep::SpawnInjector,
        SteamStep::MarkGreenLumaMode,
    ];
    assert(v@ =~= seq![
        SteamStep::VerifyInstall,
        SteamStep::WriteInjectorIni,
        SteamStep::SyncAppList,
        SteamStep::ShutdownSteam,
        SteamStep::SpawnInjector,
        SteamStep::MarkGreenLumaMode,
    ]);
    v
}

/// A step whose failure ends the run; a failure to sync the AppList or to
/// remember the mode is only logged.
pub open spec fn failure_stops(step: SteamStep) -> bool {
    step != SteamStep::SyncAppList && step != SteamStep::MarkGreenLumaMode
}

/// How a run of steps goes on.
#[derive(Debug)]
pub enum RunState {
    /// Perform this step next.
    Run(SteamStep),
    /// Every step was performed.
    Finished,
    /// A step failed; nothing more is performed.
    Failed(String),
}

/// How a run goes on, as values (a failure without its message).
pub enum RunView {
    Run(SteamStep),
    Finished,
    Failed,
}

pub open spec fn run_view(r: RunState) -> RunView {
    match r {
        RunState::Run(s) => RunView::Run(s),
        RunState::Finished => RunView::Finished,
        RunState::Failed(_) => RunView::Failed,
    }
}

/// What follows the step at `done` of `steps`: after a failure that stops
/// the run, nothing; otherwise the next step, or the end.
pub open spec fn spec_after_step(steps: Seq<SteamStep>, done: int, failed: bool) -> RunView {
    if failed && failure_stops(steps[done]) {
        RunView::Failed
    } else if done + 1 < steps.len() {
        RunView::Run(steps[done + 1])
    } else {
        RunView::Finished
    }
}

/// A run of Steam steps, performed one at a time by the program.
pub struct SteamRun {
    steps: Vec<SteamStep>,
    done: usize,
}

impl SteamRun {
    /// The steps of the run.
    pub closed spec fn steps(&self) -> Seq<SteamStep> {
        self.steps@
    }

    /// The index of the step being performed.
    pub closed spec fn current(&self) -> int {
        self.done as int
    }

    /// Starts a run: its first step, or the end for no steps.
    pub fn new(steps: Vec<SteamStep>) -> (r: (SteamRun, RunState))
        ensures
            r.0.steps() == steps@,
            r.0.current() == 0,
            run_view(r.1) == if steps@.len() > 0 {
                RunView::Run(steps@[0])
            } else {
                RunView::Finished
            },
    {
        let first = if steps.len() > 0 {
            RunState::Run(steps[0])
        } else {
            RunState::Finished
        };
        (SteamRun { steps, done: 0 }, first)
    }

    /// Takes the result of the current step (see `spec_after_step`); a
    /// failure that stops the run is handed on with its message.
    pub fn record(&mut self, result: Result<(), String>) -> (r: RunState)
        requires
            old(self).current() < old(self).steps().len(),
        ensures
            final(self).steps() == old(self).steps(),
            run_view(r) == spec_after_step(old(self).steps(), old(self).current(), result is Err),
            r matches RunState::Failed(e) ==> result == Err::<(), String>(e),
            r matches RunState::Run(_) ==> final(self).current() == old(self).current() + 1,
    {
        let step = self.steps[self.done];
        match result {
            Err(e) => {
                if step != SteamStep::SyncAppList && step != SteamStep::MarkGreenLumaMode {
                    return RunState::Failed(e);
                }
            },
            Ok(()) => {},
        }
        if self.done < self.steps.len() - 1 {
            self.done = self.done + 1;
            RunState::Run(self.steps[self.done])
        } else {
            RunState::Finished
        }
    }
}

/// Restarting Steam with GreenLuma: a failed install check stops
/// everything (Steam is not quit, the injector is neither configured nor
/// started, the mode is not changed); Steam is quit before the injector is
/// started; a failure to quit Steam or to start the injector leaves the
/// mode unchanged; and a failed AppList sync does not stop the restart.
pub proof fn law_restart_order_and_stops()
    ensures
        spec_after_step(restart_steps(), 0, true) == RunView::Failed,
        restart_steps()[3] == SteamStep::ShutdownSteam && restart_steps()[4] == SteamStep::SpawnInjector,
        spec_after_step(restart_steps(), 3, true) == RunView::Failed,
        spec_after_step(restart_steps(), 4, true) == RunView::Failed,
        spec_after_step(restart_steps(), 4, false) == RunView::Run(SteamStep::MarkGreenLumaMode),
        spec_after_step(restart_steps(), 2, true) == RunView::Run(SteamStep::ShutdownSteam),
        spec_after_step(restart_steps(), 5, false) == RunView::Finished,
{
}

/// Where quitting Steam stands.
#[derive(Debug, Clone, Copy, PartialEq, Eq)]
pub enum ShutdownPhase {
    /// Nothing done yet.
    Start,
    /// `steam -shutdown` was sent; waiting.
    Waiting,
    /// `taskkill` was run after the deadline.
    Killed,
}

/// What to do next while quitting Steam.
#[derive(Debug, Clone, Copy, PartialEq, Eq)]
pub enum ShutdownAction {
    /// Steam is not running: done at once.
    AlreadyStopped,
    /// Send `steam -shutdown`, then wait.
    SendShutdown,
    /// Sleep this many milliseconds and look again.
    Wait(u64),
    /// Run `taskkill /F /T` on `steam.exe` and `steamwebhelper.exe`, sleep
    /// 1500 ms, look again.
    ForceKill,
    /// Steam exited: sleep 1200 ms to let it settle, then done.
    Settle,
    /// Steam is still alive after being killed: give up.
    Fail,
}

/// The next action while quitting Steam, from the phase, whether
/// `steam.exe` or `steamwebhelper.exe` still runs, and the milliseconds
/// since `-shutdown` was sent (45 s deadline, 400 ms polls).
pub fn shutdown_next(phase: ShutdownPhase, alive: bool, elapsed_ms: u64) -> (r: ShutdownAction)
    ensures
        phase == ShutdownPhase::Start ==> r == if alive {
            ShutdownAction::SendShutdown
        } else {
            ShutdownAction::AlreadyStopped
        },
        phase == ShutdownPhase::Waiting ==> r == if !alive {
            ShutdownAction::Settle
        } else if elapsed_ms > 45000 {
            ShutdownAction::ForceKill
        } else {
            ShutdownAction::Wait(400)
        },
        phase == ShutdownPhase::Killed ==> r == if alive {
            ShutdownAction::Fail
        } else {
            ShutdownAction::Settle
        },
{
    match phase {
        ShutdownPhase::Start => if alive {
            ShutdownAction::SendShutdown
        } else {
            ShutdownAction::AlreadyStopped
        },
        ShutdownPhase::Waiting => if !alive {
            ShutdownAction::Settle
        } else if elapsed_ms > 45000 {
            ShutdownAction::ForceKill
        } else {
            ShutdownAction::Wait(400)
        },
        ShutdownPhase::Killed => if alive {
            ShutdownAction::Fail
        } else {
            ShutdownAction::Settle
        },
    }
}

/// `DLLInjector.ini` before the Steam path.
pub open spec fn ini_head() -> Seq<char> {
    "[DllInjector]\nAllowMultipleInstancesOfDLLInjector = 0\nUseFullPathsFromIni = 1\n\nExe = "@
}

/// `DLLInjector.ini` between the Steam path and the DLL path.
pub open spec fn ini_middle() -> Seq<char> {
    "\nCommandLine = -inhibitbootstrap\n\nDll = "@
}

/// `DLLInjector.ini` after the DLL path.
pub open spec fn ini_tail() -> Seq<char> {
    "\nExport = Init\nCheckReturnValue = 0\nWaitForProcessTermination = 0\n\nEnableFakeParentProcess = 0\nFakeParentProcess = explorer.exe\nEnableMitigationsOnChildProcess = 0\n\nDEP = 1\nSEHOP = 1\nHeapTerminate = 1\nForceRelocateImages = 1\nBottomUpASLR = 1\nHighEntropyASLR = 1\nRelocationsRequired = 1\nStrictHandleChecks = 0\nWin32kSystemCallDisable = 0\nExtensionPointDisable = 1\nCFG = 1\nCFGExportSuppression = 1\nStrictCFG = 1\nDynamicCodeDisable = 0\nDynamicCodeAllowOptOut = 0\nBlockNonMicrosoftBinaries = 0\nFontDisable = 1\nNoRemoteImages = 1\nNoLowLabelImages = 1\nPreferSystem32 = 0\nRestrictIndirectBranchPrediction = 1\nSpeculativeStoreBypassDisable = 0\nShadowStack = 0\nContextIPValidation = 0\nBlockNonCETEHCONT = 0\nBlockFSCTL = 0\n\nCreateFiles = 1\nFileToCreate_1 = NoQuestion.bin\nFileToCreate_2 =\n\nUse4GBPatch = 0\nFileToPatch_1 =\n\nBootImage = GreenLuma2026_Files\\BootImage.bmp\nBootImageWidth = 500\nBootImageHeight = 500\nBootImageXOffest = 240\nBootImageYOffest = 280\n"@
}

/// The full `DLLInjector.ini` for the Steam executable and the GreenLuma
/// DLL (every key `DLLInjector` reads, or it fails).
pub fn injector_ini(steam_exe: &str, dll: &str) -> (r: String)
    ensures
        r@ == ini_head() + steam_exe@ + ini_middle() + dll@ + ini_tail(),
{
    let mut v = chars_of("[DllInjector]\nAllowMultipleInstancesOfDLLInjector = 0\nUseFullPathsFromIni = 1\n\nExe = ");
    crate::text::extend_chars(&mut v, &chars_of(steam_exe));
    crate::text::extend_chars(&mut v, &chars_of("\nCommandLine = -inhibitbootstrap\n\nDll = "));
    crate::text::extend_chars(&mut v, &chars_of(dll));
    crate::text::extend_chars(&mut v, &chars_of("\nExport = Init\nCheckReturnValue = 0\nWaitForProcessTermination = 0\n\nEnableFakeParentProcess = 0\nFakeParentProcess = explorer.exe\nEnableMitigationsOnChildProcess = 0\n\nDEP = 1\nSEHOP = 1\nHeapTerminate = 1\nForceRelocateImages = 1\nBottomUpASLR = 1\nHighEntropyASLR = 1\nRelocationsRequired = 1\nStrictHandleChecks = 0\nWin32kSystemCallDisable = 0\nExtensionPointDisable = 1\nCFG = 1\nCFGExportSuppression = 1\nStrictCFG = 1\nDynamicCodeDisable = 0\nDynamicCodeAllowOptOut = 0\nBlockNonMicrosoftBinaries = 0\nFontDisable = 1\nNoRemoteImages = 1\nNoLowLabelImages = 1\nPreferSystem32 = 0\nRestrictIndirectBranchPrediction = 1\nSpeculativeStoreBypassDisable = 0\nShadowStack = 0\nContextIPValidation = 0\nBlockNonCETEHCONT = 0\nBlockFSCTL = 0\n\nCreateFiles = 1\nFileToCreate_1 = NoQuestion.bin\nFileToCreate_2 =\n\nUse4GBPatch = 0\nFileToPatch_1 =\n\nBootImage = GreenLuma2026_Files\\BootImage.bmp\nBootImageWidth = 500\nBootImageHeight = 500\nBootImageXOffest = 240\nBootImageYOffest = 280\n"));
    string_of(&v)
}

// ---------------------------------------------------------------------------
// Finding Steam, and installing GreenLuma from a dropped archive
// ---------------------------------------------------------------------------

/// A registry path with `/` written as `\`.
pub open spec fn spec_normalize_steam_path(p: Seq<char>) -> Seq<char> {
    p.map_values(|c: char| if c == '/' { '\\' } else { c })
}

/// Writes a registry path with `\` separators.
pub fn normalize_steam_path(p: &str) -> (r: String)
    ensures
        r@ == spec_normalize_steam_path(p@),
{
    let v = chars_of(p);
    let mut out: Vec<char> = Vec::new();
    let mut i: usize = 0;
    while i < v.len()
        invariant
            i <= v.len(),
            out@ == spec_normalize_steam_path(v@.take(i as int)),
        decreases v.len() - i,
    {
        let c = v[i];
        out.push(if c == '/' { '\\' } else { c });
        assert(out@ =~= spec_normalize_steam_path(v@.take(i + 1)));
        i = i + 1;
    }
    assert(v@.take(v.len() as int) =~= v@);
    string_of(&out)
}

/// The usual Steam folders, tried last.
pub open spec fn steam_dir_candidates() -> Seq<Seq<char>> {
    seq!["C:\\Program Files (x86)\\Steam"@, "C:\\Program Files\\Steam"@]
}

/// The usual Steam folders, tried last.
pub fn steam_dir_candidate_list() -> (r: Vec<String>)
    ensures
        crate::steam::strings_view(r@) == steam_dir_candidates(),
        r@.len() == 2,
{
    let mut r: Vec<String> = Vec::new();
    r.push(String::from_str("C:\\Program Files (x86)\\Steam"));
    r.push(String::from_str("C:\\Program Files\\Steam"));
    assert(crate::steam::strings_view(r@) =~= steam_dir_candidates());
    r
}

/// The usual folders, each with whether `steam.exe` is there.
pub open spec fn candidate_probes(has_exe: Seq<bool>) -> Seq<(Seq<char>, bool)> {
    Seq::new(2, |i: int| (steam_dir_candidates()[i], i < has_exe.len() && has_exe[i]))
}

/// The first probe that holds, among the first `k`.
pub open spec fn first_holding(probes: Seq<(Seq<char>, bool)>, k: int) -> Option<Seq<char>>
    decreases k,
{
    if k <= 0 {
        None
    } else {
        match first_holding(probes, k - 1) {
            Some(p) => Some(p),
            None => if probes[k - 1].1 {
                Some(probes[k - 1].0)
            } else {
                None
            },
        }
    }
}

/// Where Steam is, from the user's `SteamPath` (written with `\`, and
/// whether that folder exists), the machine's `InstallPath` values (and
/// whether each folder exists), and whether `steam.exe` is in each usual
/// folder: the first that holds, in that order.
pub open spec fn spec_detect_steam_dir(
    steam_path: Option<(Seq<char>, bool)>,
    install_paths: Seq<(Seq<char>, bool)>,
    candidate_has_exe: Seq<bool>,
) -> Option<Seq<char>> {
    let cands = candidate_probes(candidate_has_exe);
    match steam_path {
        Some((p, true)) => Some(spec_normalize_steam_path(p)),
        _ => match first_holding(install_paths, install_paths.len() as int) {
            Some(p) => Some(p),
            None => first_holding(cands, 2),
        },
    }
}

fn first_holding_exec(probes: &Vec<(String, bool)>) -> (r: Option<String>)
    ensures
        (match r {
            Some(p) => Some(p@),
            None => None,
        }) == first_holding(probes@.map_values(|p: (String, bool)| (p.0@, p.1)), probes@.len() as int),
{
    let ghost pv = probes@.map_values(|p: (String, bool)| (p.0@, p.1));
    let mut i: usize = 0;
    while i < probes.len()
        invariant
            i <= probes.len(),
            pv == probes@.map_values(|p: (String, bool)| (p.0@, p.1)),
            first_holding(pv, i as int) is None,
        decreases probes.len() - i,
    {
        if probes[i].1 {
            proof {
                lemma_first_holding_stays(pv, i as int + 1, probes@.len() as int);
            }
            return Some(probes[i].0.clone());
        }
        i = i + 1;
    }
    None
}

/// Once a probe holds, later ones change nothing.
proof fn lemma_first_holding_stays(probes: Seq<(Seq<char>, bool)>, k: int, n: int)
    requires
        1 <= k <= n,
        first_holding(probes, k) is Some,
    ensures
        first_holding(probes, n) == first_holding(probes, k),
    decreases n - k,
{
    if n > k {
        lemma_first_holding_stays(probes, k, n - 1);
    }
}

/// Finds the Steam folder (see `spec_detect_steam_dir`); `SteamNotFound`
/// when nothing holds.
pub fn detect_steam_dir(
    steam_path: Option<(String, bool)>,
    install_paths: &Vec<(String, bool)>,
    candidate_has_exe: &Vec<bool>,
) -> (r: Result<String, GreenLumaError>)
    ensures
        ({
            let d = spec_detect_steam_dir(
                match steam_path {
                    Some((p, b)) => Some((p@, b)),
                    None => None,
                },
                install_paths@.map_values(|p: (String, bool)| (p.0@, p.1)),
                candidate_has_exe@,
            );
            &&& d matches Some(p) ==> r matches Ok(s) && s@ == p
            &&& d is None ==> r matches Err(GreenLumaError::SteamNotFound)
        }),
{
    if let Some((p, true)) = &steam_path {
        return Ok(normalize_steam_path(p.as_str()));
    }
    if let Some(p) = first_holding_exec(install_paths) {
        return Ok(p);
    }
    let names = steam_dir_candidate_list();
    let mut cands: Vec<(String, bool)> = Vec::new();
    let mut i: usize = 0;
    let ghost target = candidate_probes(candidate_has_exe@);
    while i < 2
        invariant
            i <= 2,
            names@.len() == 2,
            crate::steam::strings_view(names@) == steam_dir_candidates(),
            target == candidate_probes(candidate_has_exe@),
            cands@.map_values(|p: (String, bool)| (p.0@, p.1)) == target.take(i as int),
        decreases 2 - i,
    {
        let has = i < candidate_has_exe.len() && candidate_has_exe[i];
        let ghost before = cands@;
        proof {
            assert(crate::steam::strings_view(names@)[i as int] == names@[i as int]@);
        }
        cands.push((names[i].clone(), has));
        assert(cands@.map_values(|p: (String, bool)| (p.0@, p.1)) =~= before.map_values(
            |p: (String, bool)| (p.0@, p.1),
        ).push(target[i as int]));
        assert(target.take(i + 1) =~= target.take(i as int).push(target[i as int]));
        i = i + 1;
    }
    assert(target.take(2) =~= target);
    match first_holding_exec(&cands) {
        Some(p) => Ok(p),
        None => Err(GreenLumaError::SteamNotFound),
    }
}

/// The passwords tried on a dropped GreenLuma archive: `cs.rin.ru`, the
/// bundled archive's, then the given ones.
pub fn install_passwords(bundled: &str, given: &Vec<String>) -> (r: Vec<String>)
    ensures
        crate::steam::strings_view(r@) == seq!["cs.rin.ru"@, bundled@] + crate::steam::strings_view(given@),
{
    let mut r: Vec<String> = Vec::new();
    r.push(String::from_str("cs.rin.ru"));
    r.push(String::from_str(bundled));
    let mut i: usize = 0;
    while i < given.len()
        invariant
            i <= given.len(),
            crate::steam::strings_view(r@) == seq!["cs.rin.ru"@, bundled@] + crate::steam::strings_view(
                given@.take(i as int),
            ),
        decreases given.len() - i,
    {
        let ghost before = r@;
        r.push(given[i].clone());
        assert(crate::steam::strings_view(r@) =~= crate::steam::strings_view(before).push(given@[i as int]@));
        assert(given@.take(i + 1) =~= given@.take(i as int).push(given@[i as int]));
        assert(crate::steam::strings_view(given@.take(i + 1)) =~= crate::steam::strings_view(given@.take(i as int)).push(
            given@[i as int]@,
        ));
        assert(crate::steam::strings_view(r@) =~= seq!["cs.rin.ru"@, bundled@] + crate::steam::strings_view(
            given@.take(i + 1),
        ));
        i = i + 1;
    }
    assert(given@.take(given@.len() as int) =~= given@);
    r
}

/// An entry of an unpacked archive (its path, and whether it is a folder)
/// is named `name` up to ASCII case and, when `dirs_only`, is a folder.
pub open spec fn is_named(e: (Seq<char>, bool), name: Seq<char>, dirs_only: bool) -> bool {
    crate::text::eq_ignore_ascii_case(crate::paths::file_name(e.0), name) && (!dirs_only || e.1)
}

/// The first such entry, in walk order.
pub open spec fn first_named(entries: Seq<(Seq<char>, bool)>, name: Seq<char>, dirs_only: bool) -> Option<int> {
    if exists|i: int| 0 <= i < entries.len() && is_named(entries[i], name, dirs_only) {
        Some(
            choose|i: int|
                0 <= i < entries.len() && is_named(entries[i], name, dirs_only) && forall|j: int|
                    0 <= j < i ==> !(#[trigger] is_named(entries[j], name, dirs_only)),
        )
    } else {
        None
    }
}

/// The entries as values.
pub open spec fn entries_view(v: Seq<(String, bool)>) -> Seq<(Seq<char>, bool)> {
    v.map_values(|e: (String, bool)| (e.0@, e.1))
}

/// The first entry named `name` (a folder when `dirs_only`), in walk order.
pub fn find_named(entries: &Vec<(String, bool)>, name: &str, dirs_only: bool) -> (r: Option<usize>)
    ensures
        r matches Some(i) ==> first_named(entries_view(entries@), name@, dirs_only) == Some(i as int) && i
            < entries@.len(),
        r is None ==> first_named(entries_view(entries@), name@, dirs_only) is None,
{
    let ghost ev = entries_view(entries@);
    let mut i: usize = 0;
    while i < entries.len()
        invariant
            i <= entries.len(),
            ev == entries_view(entries@),
            forall|j: int| 0 <= j < i ==> !(#[trigger] is_named(ev[j], name@, dirs_only)),
        decreases entries.len() - i,
    {
        let fname = crate::paths::file_name_of(entries[i].0.as_str());
        let hit = eq_ignore_ascii_case_str(fname.as_str(), name) && (!dirs_only || entries[i].1);
        assert(ev[i as int] == (entries@[i as int].0@, entries@[i as int].1));
        assert(hit == is_named(ev[i as int], name@, dirs_only));
        if hit {
            proof {
                let w = choose|k: int|
                    0 <= k < ev.len() && is_named(ev[k], name@, dirs_only) && forall|j: int|
                        0 <= j < k ==> !(#[trigger] is_named(ev[j], name@, dirs_only));
                if w < i {
                    assert(!is_named(ev[w], name@, dirs_only));
                } else if w > i {
                    assert(!is_named(ev[i as int], name@, dirs_only));
                }
            }
            return Some(i);
        }
        i = i + 1;
    }
    None
}

/// Where one required file is taken from: the folder holding
/// `DLLInjector.exe` when it is a file there, else the first entry of that
/// name anywhere.
#[verifier::opaque]
pub open spec fn source_of(entries: Seq<(Seq<char>, bool)>, root: Seq<char>, name: Seq<char>) -> Option<Seq<char>> {
    let direct = crate::paths::spec_join(root, name);
    if entries.contains((direct, false)) {
        Some(direct)
    } else {
        match first_named(entries, name, false) {
            Some(k) => Some(entries[k].0),
            None => None,
        }
    }
}

/// The sources of the first `k` required files, or the message for the
/// first one missing.
pub open spec fn sources_upto(entries: Seq<(Seq<char>, bool)>, root: Seq<char>, k: int) -> Result<Seq<Seq<char>>, Seq<char>>
    decreases k,
{
    if k <= 0 {
        Ok(seq![])
    } else {
        match sources_upto(entries, root, k - 1) {
            Err(e) => Err(e),
            Ok(acc) => match source_of(entries, root, required_files()[k - 1]) {
                Some(p) => Ok(acc.push(p)),
                None => Err("Archive missing required file: "@ + required_files()[k - 1]),
            },
        }
    }
}

/// Where the required files of an unpacked archive are taken from (see
/// `source_of`), or why the archive cannot be installed.
pub open spec fn spec_install_sources(entries: Seq<(Seq<char>, bool)>) -> Result<Seq<Seq<char>>, Seq<char>> {
    let none = "Archive does not contain DLLInjector.exe"@;
    match first_named(entries, "DLLInjector.exe"@, false) {
        None => Err(none),
        Some(i) => match crate::paths::parent(entries[i].0) {
            None => Err(none),
            Some(root) => sources_upto(entries, root, 3),
        },
    }
}

fn source_of_exec(entries: &Vec<(String, bool)>, root: &str, name: &str) -> (r: Option<String>)
    ensures
        (match r {
            Some(p) => Some(p@),
            None => None,
        }) == source_of(entries_view(entries@), root@, name@),
{
    let ghost ev = entries_view(entries@);
    reveal(source_of);
    let direct = crate::paths::join(root, name);
    let dv = chars_of(direct.as_str());
    let mut i: usize = 0;
    while i < entries.len()
        invariant
            i <= entries.len(),
            ev == entries_view(entries@),
            dv@ == direct@,
            direct@ == crate::paths::spec_join(root@, name@),
            forall|j: int| 0 <= j < i ==> #[trigger] ev[j] != (direct@, false),
        decreases entries.len() - i,
    {
        assert(ev[i as int] == (entries@[i as int].0@, entries@[i as int].1));
        if !entries[i].1 && crate::text::eq_chars(&chars_of(entries[i].0.as_str()), &dv) {
            assert(ev[i as int] == (direct@, false));
            assert(ev.contains((direct@, false)));
            proof {
                reveal(source_of);
            }
            return Some(direct);
        }
        i = i + 1;
    }
    assert(!ev.contains((direct@, false))) by {
        if ev.contains((direct@, false)) {
            let k = choose|k: int| 0 <= k < ev.len() && ev[k] == (direct@, false);
            assert(ev[k] != (direct@, false));
        }
    }
    match find_named(entries, name, false) {
        Some(k) => {
            assert(ev[k as int] == (entries@[k as int].0@, entries@[k as int].1));
            Some(entries[k].0.clone())
        },
        None => None,
    }
}

/// Where the required files are taken from, given the folder holding
/// `DLLInjector.exe`.
fn sources_from_root(entries: &Vec<(String, bool)>, root: &str) -> (r: Result<Vec<String>, String>)
    ensures
        (match r {
            Ok(v) => Ok(crate::steam::strings_view(v@)),
            Err(e) => Err(e@),
        }) == sources_upto(entries_view(entries@), root@, 3),
{
    let ghost ev = entries_view(entries@);
    let ghost fs = required_files();
    assert(fs[0] == "GreenLuma_2026_x64.dll"@);
    assert(fs[1] == "GreenLuma_2026_x86.dll"@);
    assert(fs[2] == "DLLInjector.exe"@);
    assert(sources_upto(ev, root@, 0) == Ok::<Seq<Seq<char>>, Seq<char>>(seq![]));
    let p0 = match source_of_exec(entries, root, "GreenLuma_2026_x64.dll") {
        Some(p) => p,
        None => {
            proof {
                lemma_sources_err_stays(ev, root@, 1, 3);
            }
            return Err(missing_file_message("GreenLuma_2026_x64.dll"));
        },
    };
    assert(sources_upto(ev, root@, 1) == Ok::<Seq<Seq<char>>, Seq<char>>(seq![p0@]));
    let p1 = match source_of_exec(entries, root, "GreenLuma_2026_x86.dll") {
        Some(p) => p,
        None => {
            proof {
                lemma_sources_err_stays(ev, root@, 2, 3);
            }
            return Err(missing_file_message("GreenLuma_2026_x86.dll"));
        },
    };
    assert(seq![p0@].push(p1@) =~= seq![p0@, p1@]);
    assert(sources_upto(ev, root@, 2) == Ok::<Seq<Seq<char>>, Seq<char>>(seq![p0@, p1@]));
    let p2 = match source_of_exec(entries, root, "DLLInjector.exe") {
        Some(p) => p,
        None => return Err(missing_file_message("DLLInjector.exe")),
    };
    let mut out: Vec<String> = Vec::new();
    out.push(p0);
    out.push(p1);
    out.push(p2);
    assert(crate::steam::strings_view(out@) =~= seq![p0@, p1@, p2@]);
    assert(seq![p0@, p1@].push(p2@) =~= seq![p0@, p1@, p2@]);
    Ok(out)
}

/// Where the required files are taken from (see `spec_install_sources`):
/// `entries` are the unpacked archive's files and folders in walk order.
pub fn install_sources(entries: &Vec<(String, bool)>) -> (r: Result<Vec<String>, String>)
    ensures
        (match r {
            Ok(v) => Ok(crate::steam::strings_view(v@)),
            Err(e) => Err(e@),
        }) == spec_install_sources(entries_view(entries@)),
{
    match find_named(entries, "DLLInjector.exe", false) {
        Some(i) => {
            assert(entries_view(entries@)[i as int].0 == entries@[i as int].0@);
            match crate::paths::parent_of(entries[i].0.as_str()) {
                Some(root) => sources_from_root(entries, root.as_str()),
                None => Err(String::from_str("Archive does not contain DLLInjector.exe")),
            }
        },
        None => Err(String::from_str("Archive does not contain DLLInjector.exe")),
    }
}

/// `Archive missing required file: <name>`.
fn missing_file_message(name: &str) -> (r: String)
    ensures
        r@ == "Archive missing required file: "@ + name@,
{
    let mut v = chars_of("Archive missing required file: ");
    crate::text::extend_chars(&mut v, &chars_of(name));
    string_of(&v)
}

/// Once a required file is missing, the later ones change nothing.
proof fn lemma_sources_err_stays(entries: Seq<(Seq<char>, bool)>, root: Seq<char>, k: int, n: int)
    requires
        1 <= k <= n,
        sources_upto(entries, root, k) is Err,
    ensures
        sources_upto(entries, root, n) == sources_upto(entries, root, k),
    decreases n - k,
{
    if n > k {
        lemma_sources_err_stays(entries, root, k, n - 1);
    }
}

/// Checks a required file taken from a dropped archive against the hash
/// list: without an entry for it, or with another hash, it is rejected.
pub fn check_archive_file(m: &HashManifest, name: &str, bytes: &Vec<u8>) -> (r: Result<(), String>)
    ensures
        file_check(*m, name@, Some(bytes@)) is None ==> r is Ok,
        (file_check(*m, name@, Some(bytes@)) matches Some(c) && c.0 == 2) ==> (r matches Err(e) && e@
            == "No hash for "@ + name@),
        (file_check(*m, name@, Some(bytes@)) matches Some(c) && c.0 == 3) ==> (r matches Err(e) && e@
            == "SHA256 mismatch for "@ + name@ + " — modified/unofficial file rejected"@),
{
    match check_file(m, name, Some(bytes)) {
        Ok(()) => Ok(()),
        Err(GreenLumaError::NoHashEntry(_)) => {
            let mut v = chars_of("No hash for ");
            crate::text::extend_chars(&mut v, &chars_of(name));
            Err(string_of(&v))
        },
        Err(_) => {
            let mut v = chars_of("SHA256 mismatch for ");
            crate::text::extend_chars(&mut v, &chars_of(name));
            crate::text::extend_chars(&mut v, &chars_of(" — modified/unofficial file rejected"));
            Err(string_of(&v))
        },
    }
}

/// An optional extra file from a dropped archive is copied when the hash
/// list has no entry for it, or its hash matches.
pub fn extra_file_wanted(m: &HashManifest, name: &str, bytes: &Vec<u8>) -> (r: bool)
    ensures
        r == (expected_hash(m.files@, name@) is None || file_check(*m, name@, Some(bytes@)) is None),
{
    match expected_hash_exec(&m.files, name) {
        None => true,
        Some(_) => check_file(m, name, Some(bytes)).is_ok(),
    }
}

/// A required file passes its check: it is there, listed, and hashes
/// (hex, up to ASCII case) to its entry.
pub open spec fn file_passes(m: HashManifest, name: Seq<char>, content: Option<Seq<u8>>) -> bool {
    content matches Some(b) && expected_hash(m.files@, name) matches Some(h) && crate::text::eq_ignore_ascii_case(
        hex_upper(sha256(b)),
        h,
    )
}

proof fn lemma_file_check_none(m: HashManifest, name: Seq<char>, content: Option<Seq<u8>>)
    ensures
        file_check(m, name, content) is None <==> file_passes(m, name, content),
{
    reveal(file_check);
}

proof fn lemma_verify_three(m: HashManifest, installed: Seq<Option<Vec<u8>>>)
    ensures
        verify_upto(m, installed, 3) is None <==> (file_check(m, required_files()[0], content_of(installed, 0)) is None
            && file_check(m, required_files()[1], content_of(installed, 1)) is None && file_check(
            m,
            required_files()[2],
            content_of(installed, 2),
        ) is None),
{
    let c0 = file_check(m, required_files()[0], content_of(installed, 0));
    let c1 = file_check(m, required_files()[1], content_of(installed, 1));
    let c2 = file_check(m, required_files()[2], content_of(installed, 2));
    assert(verify_upto(m, installed, 0) is None);
    assert(verify_upto(m, installed, 1) == c0);
    assert(verify_upto(m, installed, 2) == (if c0 is Some { c0 } else { c1 }));
    assert(verify_upto(m, installed, 3) == (if verify_upto(m, installed, 2) is Some {
        verify_upto(m, installed, 2)
    } else {
        c2
    }));
}

/// An install passes the check exactly when each required file is there
/// and hashes (hex, up to ASCII case) to its entry in the hash list: a
/// missing, unlisted or modified file is rejected.
pub proof fn law_install_check_is_the_hash_list(m: HashManifest, installed: Seq<Option<Vec<u8>>>)
    ensures
        verify_upto(m, installed, 3) is None <==> forall|i: int|
            0 <= i < 3 ==> #[trigger] file_passes(m, required_files()[i], content_of(installed, i)),
{
    lemma_verify_three(m, installed);
    lemma_file_check_none(m, required_files()[0], content_of(installed, 0));
    lemma_file_check_none(m, required_files()[1], content_of(installed, 1));
    lemma_file_check_none(m, required_files()[2], content_of(installed, 2));
    if forall|i: int| 0 <= i < 3 ==> #[trigger] file_passes(m, required_files()[i], content_of(installed, i)) {
        assert(file_passes(m, required_files()[0], content_of(installed, 0)));
        assert(file_passes(m, required_files()[1], content_of(installed, 1)));
        assert(file_passes(m, required_files()[2], content_of(installed, 2)));
    }
    if verify_upto(m, installed, 3) is None {
        assert forall|i: int| 0 <= i < 3 implies #[trigger] file_passes(m, required_files()[i], content_of(installed, i)) by {
            if i == 0 {
            } else if i == 1 {
            } else {
            }
        }
    }
}

/// Steam is found in order: the user's `SteamPath` when that folder exists
/// wins over everything; otherwise a usual folder is used only when no
/// machine `InstallPath` exists.
pub proof fn law_steam_search_order(
    steam_path: Option<(Seq<char>, bool)>,
    install_paths: Seq<(Seq<char>, bool)>,
    has_exe: Seq<bool>,
)
    ensures
        steam_path matches Some((p, true)) ==> spec_detect_steam_dir(steam_path, install_paths, has_exe) == Some(
            spec_normalize_steam_path(p),
        ),
        !(steam_path matches Some((p, true))) && (exists|i: int| 0 <= i < install_paths.len() && #[trigger] install_paths[i].1)
            ==> (spec_detect_steam_dir(steam_path, install_paths, has_exe) matches Some(d) && exists|i: int|
            0 <= i < install_paths.len() && #[trigger] install_paths[i].1 && install_paths[i].0 == d),
{
    if !(steam_path matches Some((p, true))) && (exists|i: int| 0 <= i < install_paths.len() && #[trigger] install_paths[i].1) {
        let i = choose|i: int| 0 <= i < install_paths.len() && #[trigger] install_paths[i].1;
        lemma_first_holding_found(install_paths, i, install_paths.len() as int);
    }
}

/// When a probe among the first `n` holds, the first that holds is one of
/// them that holds.
proof fn lemma_first_holding_found(probes: Seq<(Seq<char>, bool)>, i: int, n: int)
    requires
        0 <= i < n <= probes.len(),
        probes[i].1,
    ensures
        first_holding(probes, n) matches Some(d) && exists|j: int| 0 <= j < n && #[trigger] probes[j].1 && probes[j].0 == d,
    decreases n,
{
    if i < n - 1 {
        lemma_first_holding_found(probes, i, n - 1);
        let d = first_holding(probes, n - 1).unwrap();
        let j = choose|j: int| 0 <= j < n - 1 && #[trigger] probes[j].1 && probes[j].0 == d;
        assert(probes[j].1 && probes[j].0 == d);
    } else {
        match first_holding(probes, n - 1) {
            Some(d) => {
                lemma_first_holding_origin(probes, n - 1);
            },
            None => {
                assert(probes[n - 1].1);
            },
        }
    }
}

/// What `first_holding` finds is a probe that holds.
proof fn lemma_first_holding_origin(probes: Seq<(Seq<char>, bool)>, n: int)
    requires
        0 <= n <= probes.len(),
    ensures
        first_holding(probes, n) matches Some(d) ==> exists|j: int| 0 <= j < n && #[trigger] probes[j].1 && probes[j].0 == d,
    decreases n,
{
    if n > 0 {
        lemma_first_holding_origin(probes, n - 1);
        if first_holding(probes, n - 1) is None && probes[n - 1].1 {
            assert(probes[n - 1].1 && probes[n - 1].0 == probes[n - 1].0);
        }
    }
}

/// A chosen `steam.exe` that exists wins over anything detected: it is
/// Steam's executable and its folder is Steam's folder.
pub proof fn law_chosen_steam_exe_wins(
    exe: Seq<char>,
    library_override: Option<Seq<char>>,
    library_override_is_dir: bool,
    detected_dir: Option<Seq<char>>,
    steam_exe_is_file: bool,
    primary: Option<Seq<char>>,
)
    ensures
        spec_detect_steam(Some(exe), library_override, true, library_override_is_dir, detected_dir, steam_exe_is_file, primary) matches Ok(
            (e, d, _),
        ) && e == exe && d == (match crate::paths::parent(exe) {
            Some(p) => p,
            None => exe,
        }),
{
}

} // verus!
