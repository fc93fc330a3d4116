//! Listing and extracting archives through the 7-Zip command line: the
//! arguments handed to `7z`, the reading of what it prints, and the order in
//! which archive passwords are tried.

use vstd::prelude::*;
use crate::text::{
    chars_of, contains, contains_exec, ends_with, ends_with_exec, line_ranges, lines, push_range,
    replace_all, replace_all_exec, string_of, string_of_range, to_lowercase, trim, trim_end,
    trim_end_range, trim_range, unicode_lowercase,
};

verus! {

broadcast use vstd::string::group_string_axioms;

// ---------------------------------------------------------------------------
// Errors
// ---------------------------------------------------------------------------

/// Why listing or extracting an archive failed.
pub enum ArchiveError {
    /// No `7z.exe` was found.
    SevenZipNotFound,
    /// `7z l` reported a wrong password or an encrypted archive.
    ListWrongPassword,
    /// `7z l` failed otherwise; holds what it wrote to stderr.
    ListFailed(String),
    /// `7z x` reported a wrong password.
    ExtractWrongPassword,
    /// `7z x` failed otherwise; holds what it wrote to stderr.
    ExtractFailed(String),
    /// The archive opened but lists no entries.
    Empty,
    /// The process could not be run, or another I/O step failed.
    Io(String),
}

/// The message shown to the user for an error.
pub open spec fn error_message(e: ArchiveError) -> Seq<char> {
    match e {
        ArchiveError::SevenZipNotFound => "7-Zip not found. Install 7-Zip or add 7z.exe to PATH."@,
        ArchiveError::ListWrongPassword => "Wrong password or encrypted archive"@,
        ArchiveError::ListFailed(e) => "7z list failed: "@ + e@,
        ArchiveError::ExtractWrongPassword => "Wrong password"@,
        ArchiveError::ExtractFailed(e) => "7z extract failed: "@ + e@,
        ArchiveError::Empty => "Archive is empty"@,
        ArchiveError::Io(e) => e@,
    }
}

impl ArchiveError {
    /// The message shown to the user.
    pub fn message(&self) -> (r: String)
        ensures
            r@ == error_message(*self),
    {
        match self {
            ArchiveError::SevenZipNotFound => String::from_str(
                "7-Zip not found. Install 7-Zip or add 7z.exe to PATH.",
            ),
            ArchiveError::ListWrongPassword => String::from_str(
                "Wrong password or encrypted archive",
            ),
            ArchiveError::ListFailed(e) => String::from_str("7z list failed: ").concat(e.as_str()),
            ArchiveError::ExtractWrongPassword => String::from_str("Wrong password"),
            ArchiveError::ExtractFailed(e) => String::from_str("7z extract failed: ").concat(
                e.as_str(),
            ),
            ArchiveError::Empty => String::from_str("Archive is empty"),
            ArchiveError::Io(e) => e.clone(),
        }
    }
}

// ---------------------------------------------------------------------------
// Locating 7-Zip
// ---------------------------------------------------------------------------

/// The install locations of `7z.exe` looked at before `PATH`, in order.
pub fn seven_zip_candidates() -> (r: Vec<String>)
    ensures
        r@.len() == 2,
        r@[0]@ == "C:\\Program Files\\7-Zip\\7z.exe"@,
        r@[1]@ == "C:\\Program Files (x86)\\7-Zip\\7z.exe"@,
{
    let mut r = Vec::new();
    r.push(String::from_str("C:\\Program Files\\7-Zip\\7z.exe"));
    r.push(String::from_str("C:\\Program Files (x86)\\7-Zip\\7z.exe"));
    r
}

/// Picks `7z.exe`: the first candidate of [`seven_zip_candidates`] that is a
/// file (`candidate_is_file[i]` for candidate `i`), else what `PATH` gave.
pub fn find_7z(candidates: &Vec<String>, candidate_is_file: &Vec<bool>, on_path: Option<String>) -> (r: Option<String>)
    requires
        candidates@.len() == candidate_is_file@.len(),
    ensures
        (exists|i: int| 0 <= i < candidates@.len() && candidate_is_file@[i]) ==> (exists|i: int|
            0 <= i < candidates@.len() && candidate_is_file@[i] && (forall|j: int|
                0 <= j < i ==> !candidate_is_file@[j]) && r == Some(candidates@[i])),
        (forall|i: int| 0 <= i < candidates@.len() ==> !candidate_is_file@[i]) ==> r == on_path,
{
    let mut i: usize = 0;
    while i < candidates.len()
        invariant
            i <= candidates@.len() == candidate_is_file@.len(),
            forall|j: int| 0 <= j < i ==> !candidate_is_file@[j],
        decreases candidates.len() - i,
    {
        if candidate_is_file[i] {
            return Some(candidates[i].clone());
        }
        i = i + 1;
    }
    on_path
}

/// The path of `7z.exe` that `where 7z.exe` printed: its first line,
/// trimmed, when the command succeeded and that line is not empty.
pub fn which_7z_on_path(success: bool, stdout: &str) -> (r: Option<String>)
    ensures
        !success ==> r is None,
        success && lines(stdout@).len() == 0 ==> r is None,
        success && lines(stdout@).len() > 0 ==> (if trim(lines(stdout@)[0]).len() == 0 {
            r is None
        } else {
            r matches Some(p) && p@ == trim(lines(stdout@)[0])
        }),
{
    if !success {
        return None;
    }
    let v = chars_of(stdout);
    let ranges = line_ranges(&v);
    if ranges.len() == 0 {
        return None;
    }
    let (a, b) = ranges[0];
    let (ta, tb) = trim_range(&v, a, b);
    if ta == tb {
        return None;
    }
    Some(string_of_range(&v, ta, tb))
}

// ---------------------------------------------------------------------------
// Command lines
// ---------------------------------------------------------------------------

/// The password switch: `-p` followed by the password (bare `-p` for none).
pub open spec fn password_switch(password: Seq<char>) -> Seq<char> {
    seq!['-', 'p'] + password
}

fn password_arg(password: &str) -> (r: String)
    ensures
        r@ == password_switch(password@),
{
    proof {
        reveal_strlit("-p");
    }
    String::from_str("-p").concat(password)
}

/// Arguments of `7z` that list an archive (before the archive path):
/// `l -ba -p<password>`.
pub fn list_args(password: Option<&str>) -> (r: Vec<String>)
    ensures
        r@.len() == 3,
        r@[0]@ == "l"@,
        r@[1]@ == "-ba"@,
        r@[2]@ == password_switch(
            match password {
                Some(p) => p@,
                None => Seq::empty(),
            },
        ),
{
    let mut r = Vec::new();
    r.push(String::from_str("l"));
    r.push(String::from_str("-ba"));
    match password {
        Some(pw) => r.push(password_arg(pw)),
        None => r.push(password_arg("")),
    }
    proof {
        reveal_strlit("");
    }
    r
}

/// Arguments of `7z` that extract an archive (before the archive path):
/// `x -y -o<dest> -p<password>`.
pub fn extract_args(dest: &str, password: &str) -> (r: Vec<String>)
    ensures
        r@.len() == 4,
        r@[0]@ == "x"@,
        r@[1]@ == "-y"@,
        r@[2]@ == seq!['-', 'o'] + dest@,
        r@[3]@ == password_switch(password@),
{
    let mut r = Vec::new();
    r.push(String::from_str("x"));
    r.push(String::from_str("-y"));
    proof {
        reveal_strlit("-o");
    }
    r.push(String::from_str("-o").concat(dest));
    r.push(password_arg(password));
    r
}

// ---------------------------------------------------------------------------
// Reading `7z` output
// ---------------------------------------------------------------------------

/// Lower-cased `7z` output that reports a wrong password (or an encrypted
/// archive).
pub open spec fn spec_reports_wrong_password(lowered: Seq<char>) -> bool {
    contains(lowered, "wrong password"@) || contains(lowered, "cannot open encrypted"@) || contains(
        lowered,
        "data error"@,
    )
}

/// `7z` failed because of a wrong password (or an encrypted archive).
pub open spec fn spec_looks_like_wrong_password(stderr: Seq<char>) -> bool {
    spec_reports_wrong_password(unicode_lowercase(stderr))
}

/// Whether lower-cased `7z` output reports a wrong password.
pub fn reports_wrong_password(lowered: &str) -> (r: bool)
    ensures
        r == spec_reports_wrong_password(lowered@),
{
    let s = chars_of(lowered);
    let p1 = chars_of("wrong password");
    let p2 = chars_of("cannot open encrypted");
    let p3 = chars_of("data error");
    contains_exec(&s, &p1) || contains_exec(&s, &p2) || contains_exec(&s, &p3)
}

/// Whether `7z`'s stderr reports a wrong password.
pub fn looks_like_wrong_password(stderr: &str) -> (r: bool)
    ensures
        r == spec_looks_like_wrong_password(stderr@),
{
    let lowered = to_lowercase(stderr);
    reports_wrong_password(lowered.as_str())
}

/// UTF-8 width of one character.
pub open spec fn utf8_width(c: char) -> nat {
    let u = c as u32;
    if u < 0x80 {
        1
    } else if u < 0x800 {
        2
    } else if u < 0x10000 {
        3
    } else {
        4
    }
}

/// Length in bytes of the UTF-8 encoding (`str::len`).
pub open spec fn utf8_len(s: Seq<char>) -> nat
    decreases s.len(),
{
    if s.len() == 0 {
        0
    } else {
        utf8_len(s.drop_last()) + utf8_width(s.last())
    }
}

pub(crate) fn utf8_width_exec(c: char) -> (w: usize)
    ensures
        w == utf8_width(c),
{
    let u = c as u32;
    if u < 0x80 {
        1
    } else if u < 0x800 {
        2
    } else if u < 0x10000 {
        3
    } else {
        4
    }
}

/// Byte offsets of character boundaries grow with the character index.
pub proof fn lemma_utf8_len_take_increasing(s: Seq<char>, k1: int, k2: int)
    requires
        0 <= k1 < k2 <= s.len(),
    ensures
        utf8_len(s.take(k1)) < utf8_len(s.take(k2)),
    decreases k2,
{
    assert(s.take(k2).drop_last() =~= s.take(k2 - 1));
    if k1 < k2 - 1 {
        lemma_utf8_len_take_increasing(s, k1, k2 - 1);
    }
}

/// The character index at which byte offset `b` of `s` starts a character.
pub open spec fn char_index_of_byte(s: Seq<char>, b: nat) -> Option<int> {
    if exists|k: int| 0 <= k <= s.len() && utf8_len(s.take(k)) == b {
        Some(choose|k: int| 0 <= k <= s.len() && utf8_len(s.take(k)) == b)
    } else {
        None
    }
}

/// Column (in bytes) where `7z l -ba` prints an entry's name.
pub open spec fn name_column() -> nat {
    53
}

/// The line can be cut at the name column without splitting a character
/// (`str` slicing there would panic otherwise).
pub open spec fn list_line_cuttable(line: Seq<char>) -> bool {
    let t = trim_end(line);
    utf8_len(t) >= 54 ==> char_index_of_byte(t, name_column()) is Some
}

/// The entry name that a `7z l -ba` line lists, with `\` turned into `/`:
/// none for lines shorter than 54 bytes, and none for an empty name, `.`
/// or `..`.
pub open spec fn list_line_name(line: Seq<char>) -> Option<Seq<char>> {
    let t = trim_end(line);
    if utf8_len(t) < 54 {
        None
    } else {
        let name = trim(t.skip(char_index_of_byte(t, name_column()).unwrap()));
        if name.len() == 0 || name == "."@ || name == ".."@ {
            None
        } else {
            Some(replace_all(name, "\\"@, "/"@))
        }
    }
}

/// `list_line_name` as a function value.
pub open spec fn line_name_fn() -> spec_fn(Seq<char>) -> Option<Seq<char>> {
    |l: Seq<char>| list_line_name(l)
}

/// Entry names of a `7z l -ba` listing, in order.
pub open spec fn list_paths(stdout: Seq<char>) -> Seq<Seq<char>> {
    lines(stdout).filter_map(line_name_fn())
}

/// Every line of the listing can be cut at the name column.
pub open spec fn listing_cuttable(stdout: Seq<char>) -> bool {
    forall|i: int| 0 <= i < lines(stdout).len() ==> list_line_cuttable(#[trigger] lines(stdout)[i])
}

/// The encoded length of a prefix is at most that of the whole.
pub proof fn lemma_utf8_len_take_le(s: Seq<char>, k: int)
    requires
        0 <= k <= s.len(),
    ensures
        utf8_len(s.take(k)) <= utf8_len(s),
{
    assert(s.take(s.len() as int) =~= s);
    if k < s.len() {
        lemma_utf8_len_take_increasing(s, k, s.len() as int);
    }
}

/// `list_line_name` for `v[a..b]`.
fn list_line_name_exec(v: &Vec<char>, a: usize, b: usize) -> (r: Option<Vec<char>>)
    requires
        a <= b <= v.len(),
        list_line_cuttable(v@.subrange(a as int, b as int)),
    ensures
        r matches Some(n) ==> list_line_name(v@.subrange(a as int, b as int)) == Some(n@),
        r is None ==> list_line_name(v@.subrange(a as int, b as int)) is None,
{
    let ghost line = v@.subrange(a as int, b as int);
    let e = trim_end_range(v, a, b);
    let ghost t = v@.subrange(a as int, e as int);
    assert(t == trim_end(line));
    // Walk the characters of t, counting bytes, until 54 bytes are passed.
    let mut k: usize = a;
    let mut bytes: usize = 0;
    let mut cut: Option<usize> = None;
    assert(t.take(0) =~= Seq::<char>::empty());
    while k < e && bytes < 54
        invariant
            a <= k <= e <= b <= v.len(),
            t == v@.subrange(a as int, e as int),
            bytes == utf8_len(t.take(k - a)),
            cut matches Some(c) ==> a <= c < k && utf8_len(t.take(c - a)) == 53,
            cut is None ==> forall|j: int| 0 <= j < k - a ==> utf8_len(t.take(j)) != 53,
        decreases e - k,
    {
        if bytes == 53 {
            cut = Some(k);
        }
        let w = utf8_width_exec(v[k]);
        assert(t.take(k + 1 - a).drop_last() =~= t.take(k - a));
        bytes = bytes + w;
        k = k + 1;
    }
    if bytes < 54 {
        assert(t.take(k - a) =~= t);
        return None;
    }
    proof {
        lemma_utf8_len_take_le(t, k - a);
    }
    let c = match cut {
        Some(c) => c,
        None => {
            proof {
                assert(char_index_of_byte(t, name_column()) is Some);
                let j = choose|j: int| 0 <= j <= t.len() && utf8_len(t.take(j)) == 53;
                if j > k - a {
                    lemma_utf8_len_take_increasing(t, k - a, j);
                }
                assert(false);
            }
            0
        },
    };
    proof {
        let j = choose|j: int| 0 <= j <= t.len() && utf8_len(t.take(j)) == 53;
        assert(0 <= c - a <= t.len() && utf8_len(t.take(c - a)) == 53);
        if j < c - a {
            lemma_utf8_len_take_increasing(t, j, c - a);
        } else if j > c - a {
            lemma_utf8_len_take_increasing(t, c - a, j);
        }
        assert(char_index_of_byte(t, name_column()) == Some(c - a));
        assert(t.skip(c - a) =~= v@.subrange(c as int, e as int));
    }
    let (na, nb) = trim_range(v, c, e);
    let ghost name = v@.subrange(na as int, nb as int);
    if na == nb {
        return None;
    }
    if nb - na == 1 && v[na] == '.' {
        proof {
            reveal_strlit(".");
            assert(name =~= "."@);
        }
        return None;
    }
    if nb - na == 2 && v[na] == '.' && v[na + 1] == '.' {
        proof {
            reveal_strlit("..");
            assert(name =~= ".."@);
        }
        return None;
    }
    proof {
        reveal_strlit(".");
        reveal_strlit("..");
        if name == "."@ {
            assert(name[0] == '.');
        }
        if name == ".."@ {
            assert(name[0] == '.' && name[1] == '.');
        }
    }
    let mut nv: Vec<char> = Vec::new();
    push_range(&mut nv, v, na, nb);
    assert(nv@ =~= name);
    let from = chars_of("\\");
    let to = chars_of("/");
    proof {
        reveal_strlit("\\");
    }
    Some(replace_all_exec(&nv, &from, &to))
}

/// Entry names of `7z l -ba` output (last column), `\` turned into `/`.
pub fn parse_7z_list_paths(stdout: &str) -> (r: Vec<String>)
    requires
        listing_cuttable(stdout@),
    ensures
        r@.len() == list_paths(stdout@).len(),
        forall|i: int| 0 <= i < r@.len() ==> #[trigger] r@[i]@ == list_paths(stdout@)[i],
{
    let v = chars_of(stdout);
    let ranges = line_ranges(&v);
    let ghost ls = lines(v@);
    let ghost f = line_name_fn();
    let ghost mut acc: Seq<Seq<char>> = Seq::empty();
    let mut out: Vec<String> = Vec::new();
    let mut i: usize = 0;
    assert(ls.take(0) =~= Seq::<Seq<char>>::empty());
    while i < ranges.len()
        invariant
            ls == lines(v@),
            f == line_name_fn(),
            v@ == stdout@,
            ranges@.len() == ls.len(),
            forall|k: int|
                #![trigger ranges@[k]]
                0 <= k < ranges@.len() ==> ranges@[k].0 <= ranges@[k].1 <= v@.len() && ls[k]
                    == v@.subrange(ranges@[k].0 as int, ranges@[k].1 as int),
            listing_cuttable(stdout@),
            i <= ranges.len(),
            acc == ls.take(i as int).filter_map(f),
            out@.len() == acc.len(),
            forall|k: int| 0 <= k < out@.len() ==> #[trigger] out@[k]@ == acc[k],
        decreases ranges.len() - i,
    {
        let (a, b) = ranges[i];
        assert(ls[i as int] == v@.subrange(a as int, b as int));
        assert(list_line_cuttable(ls[i as int]));
        proof {
            ls.lemma_filter_map_take_succ(f, i as int);
        }
        let ghost old_out = out@;
        match list_line_name_exec(&v, a, b) {
            Some(name) => {
                out.push(string_of(&name));
                proof {
                    assert(f(ls[i as int]) == Some(name@));
                    acc = acc.push(name@);
                    assert(ls.take(i + 1).filter_map(f) =~= acc);
                }
                assert forall|k: int| 0 <= k < out@.len() implies #[trigger] out@[k]@ == acc[k] by {
                    if k < old_out.len() {
                        assert(out@[k] == old_out[k]);
                    }
                }
            },
            None => {
                proof {
                    assert(f(ls[i as int]) is None);
                    assert(ls.take(i + 1).filter_map(f) =~= acc);
                }
            },
        }
        i = i + 1;
    }
    assert(ls.take(ranges.len() as int) =~= ls);
    out
}

/// A lower-cased entry that is an app manifest: it contains
/// `steamapps/appmanifest_` and ends with `.acf`.
pub open spec fn is_lowered_acf_entry(lowered: Seq<char>) -> bool {
    contains(lowered, "steamapps/appmanifest_"@) && ends_with(lowered, ".acf"@)
}

/// An entry that is an app manifest, once lower-cased.
pub open spec fn is_acf_entry(p: Seq<char>) -> bool {
    is_lowered_acf_entry(unicode_lowercase(p))
}

/// Whether a lower-cased entry is an app manifest.
pub fn lowered_acf_entry(lowered: &str) -> (r: bool)
    ensures
        r == is_lowered_acf_entry(lowered@),
{
    let marker = chars_of("steamapps/appmanifest_");
    let ext = chars_of(".acf");
    let lower = chars_of(lowered);
    contains_exec(&lower, &marker) && ends_with_exec(&lower, &ext)
}

/// Whether the entry is an app manifest.
pub fn is_acf_entry_exec(p: &str) -> (r: bool)
    ensures
        r == is_acf_entry(p@),
{
    let lowered = to_lowercase(p);
    lowered_acf_entry(lowered.as_str())
}

/// The listing is a Steam library pack: some entry is an app manifest.
pub open spec fn spec_is_steam_library_layout(paths: Seq<Seq<char>>) -> bool {
    exists|i: int| 0 <= i < paths.len() && is_acf_entry(#[trigger] paths[i])
}

/// Index of the first app manifest among the entries.
pub fn first_acf_entry(paths: &Vec<String>) -> (r: Option<usize>)
    ensures
        r matches Some(i) ==> i < paths@.len() && is_acf_entry(paths@[i as int]@) && forall|j: int|
            0 <= j < i ==> !is_acf_entry(#[trigger] paths@[j]@),
        r is None ==> forall|j: int| 0 <= j < paths@.len() ==> !is_acf_entry(#[trigger] paths@[j]@),
{
    let mut i: usize = 0;
    while i < paths.len()
        invariant
            i <= paths@.len(),
            forall|j: int| 0 <= j < i ==> !is_acf_entry(#[trigger] paths@[j]@),
        decreases paths.len() - i,
    {
        if is_acf_entry_exec(paths[i].as_str()) {
            return Some(i);
        }
        i = i + 1;
    }
    None
}

/// True if the listing looks like a CSF / Steam-library pack.
pub fn is_steam_library_layout(paths: &Vec<String>) -> (r: bool)
    ensures
        r == spec_is_steam_library_layout(paths@.map_values(|p: String| p@)),
{
    let ghost ps = paths@.map_values(|p: String| p@);
    match first_acf_entry(paths) {
        Some(i) => {
            assert(ps[i as int] == paths@[i as int]@);
            true
        },
        None => {
            assert forall|j: int| 0 <= j < ps.len() implies !is_acf_entry(#[trigger] ps[j]) by {
                assert(ps[j] == paths@[j]@);
            }
            false
        },
    }
}

/// The line of `7z l -ba` output can be cut at the name column.
fn line_cuttable_exec(v: &Vec<char>, a: usize, b: usize) -> (r: bool)
    requires
        a <= b <= v.len(),
    ensures
        r == list_line_cuttable(v@.subrange(a as int, b as int)),
{
    let e = trim_end_range(v, a, b);
    let ghost t = v@.subrange(a as int, e as int);
    let mut k: usize = a;
    let mut bytes: usize = 0;
    let mut hit = false;
    assert(t.take(0) =~= Seq::<char>::empty());
    while k < e && bytes < 54
        invariant
            a <= k <= e <= b <= v.len(),
            t == v@.subrange(a as int, e as int),
            bytes == utf8_len(t.take(k - a)),
            hit ==> exists|j: int| 0 <= j <= t.len() && utf8_len(t.take(j)) == 53,
            !hit ==> forall|j: int| 0 <= j < k - a ==> utf8_len(t.take(j)) != 53,
        decreases e - k,
    {
        if bytes == 53 {
            hit = true;
        }
        let w = utf8_width_exec(v[k]);
        assert(t.take(k + 1 - a).drop_last() =~= t.take(k - a));
        bytes = bytes + w;
        k = k + 1;
    }
    if bytes < 54 {
        assert(t.take(k - a) =~= t);
        return true;
    }
    proof {
        lemma_utf8_len_take_le(t, k - a);
        if !hit {
            assert forall|j: int| 0 <= j <= t.len() implies utf8_len(t.take(j)) != 53 by {
                if j > k - a {
                    lemma_utf8_len_take_increasing(t, k - a, j);
                }
            }
        }
    }
    hit
}

/// Whether every line of `7z l -ba` output can be cut at the name column,
/// which [`parse_7z_list_paths`] needs.
pub fn listing_is_cuttable(stdout: &str) -> (r: bool)
    ensures
        r == listing_cuttable(stdout@),
{
    let v = chars_of(stdout);
    let ranges = line_ranges(&v);
    let mut i: usize = 0;
    while i < ranges.len()
        invariant
            v@ == stdout@,
            ranges@.len() == lines(v@).len(),
            forall|k: int|
                #![trigger ranges@[k]]
                0 <= k < ranges@.len() ==> ranges@[k].0 <= ranges@[k].1 <= v@.len() && lines(v@)[k]
                    == v@.subrange(ranges@[k].0 as int, ranges@[k].1 as int),
            i <= ranges.len(),
            forall|k: int| 0 <= k < i ==> list_line_cuttable(#[trigger] lines(stdout@)[k]),
        decreases ranges.len() - i,
    {
        let (a, b) = ranges[i];
        if !line_cuttable_exec(&v, a, b) {
            return false;
        }
        i = i + 1;
    }
    true
}

/// What listing an archive gives, from the exit status and output of
/// `7z l -ba`: the entry names, or the error it reports.
pub fn list_archive_outcome(success: bool, stdout: &str, stderr: &str) -> (r: Result<
    Vec<String>,
    ArchiveError,
>)
    requires
        success ==> listing_cuttable(stdout@),
    ensures
        !success && spec_looks_like_wrong_password(stderr@) ==> r matches Err(
            ArchiveError::ListWrongPassword,
        ),
        !success && !spec_looks_like_wrong_password(stderr@) ==> (r matches Err(
            ArchiveError::ListFailed(e),
        ) && e@ == stderr@),
        success ==> (r matches Ok(paths) && paths@.len() == list_paths(stdout@).len() && forall|
            i: int,
        | 0 <= i < paths@.len() ==> #[trigger] paths@[i]@ == list_paths(stdout@)[i]),
{
    if !success {
        if looks_like_wrong_password(stderr) {
            return Err(ArchiveError::ListWrongPassword);
        }
        return Err(ArchiveError::ListFailed(String::from_str(stderr)));
    }
    Ok(parse_7z_list_paths(stdout))
}

/// What extracting an archive gives, from the exit status and stderr of
/// `7z x`.
pub fn extract_archive_outcome(success: bool, stderr: &str) -> (r: Result<(), ArchiveError>)
    ensures
        success ==> r is Ok,
        !success && spec_looks_like_wrong_password(stderr@) ==> r matches Err(
            ArchiveError::ExtractWrongPassword,
        ),
        !success && !spec_looks_like_wrong_password(stderr@) ==> (r matches Err(
            ArchiveError::ExtractFailed(e),
        ) && e@ == stderr@),
{
    if success {
        return Ok(());
    }
    if looks_like_wrong_password(stderr) {
        return Err(ArchiveError::ExtractWrongPassword);
    }
    Err(ArchiveError::ExtractFailed(String::from_str(stderr)))
}

// ---------------------------------------------------------------------------
// Password tries
// ---------------------------------------------------------------------------

/// Passwords to try, in order: no password first, then each non-empty
/// password of `passwords` not already listed.
pub open spec fn password_candidates(passwords: Seq<Seq<char>>) -> Seq<Seq<char>>
    decreases passwords.len(),
{
    if passwords.len() == 0 {
        seq![Seq::empty()]
    } else {
        let c = password_candidates(passwords.drop_last());
        let p = passwords.last();
        if p.len() > 0 && !c.contains(p) {
            c.push(p)
        } else {
            c
        }
    }
}

/// The candidates start with no password and list nothing twice.
pub proof fn lemma_password_candidates(passwords: Seq<Seq<char>>)
    ensures
        password_candidates(passwords).len() >= 1,
        password_candidates(passwords)[0] == Seq::<char>::empty(),
        password_candidates(passwords).no_duplicates(),
        forall|i: int|
            0 <= i < passwords.len() ==> #[trigger] password_candidates(passwords).contains(
                passwords[i],
            ) || passwords[i].len() == 0,
        forall|j: int|
            1 <= j < password_candidates(passwords).len() ==> passwords.contains(
                #[trigger] password_candidates(passwords)[j],
            ),
    decreases passwords.len(),
{
    if passwords.len() > 0 {
        let rest = passwords.drop_last();
        lemma_password_candidates(rest);
        let c = password_candidates(rest);
        let p = passwords.last();
        assert forall|i: int|
            0 <= i < passwords.len() implies #[trigger] password_candidates(passwords).contains(
            passwords[i],
        ) || passwords[i].len() == 0 by {
            if i < rest.len() {
                assert(rest[i] == passwords[i]);
                if c.contains(rest[i]) {
                    let k = choose|k: int| 0 <= k < c.len() && c[k] == rest[i];
                    if p.len() > 0 && !c.contains(p) {
                        assert(c.push(p)[k] == rest[i]);
                    }
                }
            } else {
                if p.len() > 0 && !c.contains(p) {
                    assert(c.push(p)[c.len() as int] == p);
                }
            }
        }
        assert forall|j: int|
            1 <= j < password_candidates(passwords).len() implies passwords.contains(
            #[trigger] password_candidates(passwords)[j],
        ) by {
            if j < c.len() {
                let x = c[j];
                assert(rest.contains(x));
                let k = choose|k: int| 0 <= k < rest.len() && rest[k] == x;
                assert(passwords[k] == x);
            } else {
                assert(passwords[passwords.len() - 1] == p);
            }
        }
    }
}

/// Candidates as strings.
fn password_candidates_exec(passwords: &Vec<String>) -> (r: Vec<String>)
    ensures
        r@.map_values(|s: String| s@) == password_candidates(passwords@.map_values(|s: String| s@)),
{
    let ghost ps = passwords@.map_values(|s: String| s@);
    let mut r: Vec<String> = Vec::new();
    r.push(String::new());
    let mut i: usize = 0;
    assert(ps.take(0) =~= Seq::<Seq<char>>::empty());
    assert(r@.map_values(|s: String| s@) =~= seq![Seq::<char>::empty()]);
    while i < passwords.len()
        invariant
            i <= passwords@.len(),
            ps == passwords@.map_values(|s: String| s@),
            r@.map_values(|s: String| s@) == password_candidates(ps.take(i as int)),
        decreases passwords.len() - i,
    {
        let p = &passwords[i];
        let ghost c = password_candidates(ps.take(i as int));
        assert(ps.take(i + 1).drop_last() =~= ps.take(i as int));
        assert(ps.take(i + 1).last() == p@);
        let mut seen = false;
        let mut k: usize = 0;
        while k < r.len()
            invariant
                k <= r@.len(),
                r@.map_values(|s: String| s@) == c,
                seen <==> exists|j: int| 0 <= j < k && c[j] == p@,
            decreases r.len() - k,
        {
            assert(c[k as int] == r@[k as int]@);
            if r[k] == *p {
                seen = true;
            }
            k = k + 1;
        }
        assert(seen <==> c.contains(p@));
        if !p.as_str().is_empty() && !seen {
            r.push(p.clone());
            assert(r@.map_values(|s: String| s@) =~= c.push(p@));
        }
        i = i + 1;
    }
    assert(ps.take(passwords.len() as int) =~= ps);
    r
}

/// What the password tries do next.
pub enum TryStep {
    /// List the archive again with this password.
    Try(String),
    /// The archive opened: its entries and the password that worked.
    Opened(Vec<String>, String),
    /// Every password failed; the error of the last try.
    Failed(ArchiveError),
}

/// The error when every password was tried and none gave an error to
/// report: `Could not open archive (tried <n> passwords)`.
pub open spec fn could_not_open(n: nat) -> Seq<char> {
    "Could not open archive (tried "@ + crate::text::decimal(n) + " passwords)"@
}

/// A listing opens the archive: it lists entries, or it was made with no
/// password. An empty listing under a password is what a wrong password
/// sometimes gives, so the next password is tried.
pub open spec fn opens(listing: Seq<String>, pw: Seq<char>) -> bool {
    listing.len() > 0 || pw.len() == 0
}

/// Listing an archive with each candidate password in turn until one
/// listing opens it.
pub struct PasswordTries {
    candidates: Vec<String>,
    current: usize,
    last_error: Option<ArchiveError>,
}

impl PasswordTries {
    /// The passwords to try, in order.
    pub closed spec fn candidates(&self) -> Seq<Seq<char>> {
        self.candidates@.map_values(|s: String| s@)
    }

    /// Index of the password being tried.
    pub closed spec fn current(&self) -> int {
        self.current as int
    }

    /// The error of the last failed listing so far, if any.
    pub closed spec fn last_error(&self) -> Option<ArchiveError> {
        self.last_error
    }

    pub closed spec fn wf(&self) -> bool {
        0 <= self.current < self.candidates@.len()
    }

    /// The password to list the archive with now.
    pub fn password(&self) -> (r: String)
        requires
            self.wf(),
        ensures
            r@ == self.candidates()[self.current()],
    {
        self.candidates[self.current].clone()
    }

    /// Takes the outcome of listing with the current password. A listing
    /// that opens the archive (see `opens`) ends the tries with that
    /// password. A failure, or an empty listing under a password, moves to
    /// the next password; after the last one the tries end with the error
    /// of the last failed listing (or `could_not_open` when none failed).
    pub fn record(&mut self, outcome: Result<Vec<String>, ArchiveError>) -> (r: TryStep)
        requires
            old(self).wf(),
        ensures
            ({
                let pw = old(self).candidates()[old(self).current()];
                let opened = outcome matches Ok(paths) && opens(paths@, pw);
                let err = match outcome {
                    Err(e) => Some(e),
                    Ok(_) => old(self).last_error(),
                };
                &&& final(self).candidates() == old(self).candidates()
                &&& opened ==> (r matches TryStep::Opened(paths, p) && Ok::<Vec<String>, ArchiveError>(
                    paths,
                ) == outcome && p@ == pw)
                &&& !opened && old(self).current() + 1 < old(self).candidates().len() ==> {
                    &&& final(self).wf()
                    &&& final(self).current() == old(self).current() + 1
                    &&& final(self).last_error() == err
                    &&& (r matches TryStep::Try(p) && p@ == old(self).candidates()[old(self).current() + 1])
                }
                &&& !opened && old(self).current() + 1 >= old(self).candidates().len() ==> match err {
                    Some(e) => r == TryStep::Failed(e),
                    None => r matches TryStep::Failed(ArchiveError::Io(m)) && m@ == could_not_open(
                        old(self).candidates().len(),
                    ),
                }
            }),
    {
        let opened = match &outcome {
            Ok(paths) => paths.len() > 0 || self.candidates[self.current].as_str().is_empty(),
            Err(_) => false,
        };
        if opened {
            match outcome {
                Ok(paths) => {
                    return TryStep::Opened(paths, self.candidates[self.current].clone());
                },
                Err(e) => {
                    return TryStep::Failed(e);
                },
            }
        }
        match outcome {
            Ok(_) => {},
            Err(e) => {
                self.last_error = Some(e);
            },
        }
        if self.current < self.candidates.len() - 1 {
            self.current = self.current + 1;
            TryStep::Try(self.candidates[self.current].clone())
        } else {
            match self.last_error.take() {
                Some(e) => TryStep::Failed(e),
                None => {
                    let mut v = chars_of("Could not open archive (tried ");
                    crate::text::push_decimal(&mut v, self.candidates.len() as u64);
                    crate::text::extend_chars(&mut v, &chars_of(" passwords)"));
                    TryStep::Failed(ArchiveError::Io(string_of(&v)))
                },
            }
        }
    }
}

/// Starts trying `passwords`: no password first, then each distinct
/// non-empty one, in order.
pub fn list_with_password_tries(passwords: &Vec<String>) -> (r: PasswordTries)
    ensures
        r.wf(),
        r.current() == 0,
        r.last_error() is None,
        r.candidates() == password_candidates(passwords@.map_values(|s: String| s@)),
{
    let c = password_candidates_exec(passwords);
    proof {
        lemma_password_candidates(passwords@.map_values(|s: String| s@));
    }
    PasswordTries { candidates: c, current: 0, last_error: None }
}

/// After the password tries: the password to extract with, which is the
/// one that opened the archive, unless the archive lists no entries.
pub fn extract_with_password_tries(listed: Result<(Vec<String>, String), ArchiveError>) -> (r:
    Result<String, ArchiveError>)
    ensures
        listed matches Ok((paths, pw)) ==> (paths@.len() > 0 ==> r == Ok::<String, ArchiveError>(
            pw,
        )) && (paths@.len() == 0 ==> r matches Err(ArchiveError::Empty)),
        listed matches Err(e) ==> r == Err::<String, ArchiveError>(e),
{
    match listed {
        Ok((paths, pw)) => {
            if paths.len() == 0 {
                Err(ArchiveError::Empty)
            } else {
                Ok(pw)
            }
        },
        Err(e) => Err(e),
    }
}

} // verus!
