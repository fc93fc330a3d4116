//! Steam Workshop items: reading item ids out of links and pasted lists, and
//! the folder names downloads are stored under.

use vstd::prelude::*;
use std::collections::{HashMap, HashSet};
use crate::archive::{char_index_of_byte, utf8_len, utf8_width_exec};
use crate::text::{
    contains, contains_exec, occurs_at, replace_all, replace_all_exec, string_of_range, find_char_from, first_char_at, lines_from, chars_of, decimal, is_space, lines, line_ranges, parse_u64, parse_u64_range, parse_uint,
    push_decimal, push_range, string_of, trim, trim_range,
};
use crate::greenluma::{app_label, app_label_string};
use crate::models::{GgItemResponse, PublishedFileMeta, PublishedFileDetailsItem};
use crate::pattern::{leftmost, span_end, CharClass};
use crate::paths::{join, spec_join};
use crate::scan::{capture_first, capture_first_exec, find_exec, make_pattern, simple_spec, Pattern, PatternSpec};

verus! {

broadcast use {vstd::string::group_string_axioms, vstd::std_specs::hash::group_hash_axioms};

/// The most items one `GetPublishedFileDetails` request asks about.
pub const PUBLISHED_FILE_BATCH: usize = 50;

// ---------------------------------------------------------------------------
// One item id
// ---------------------------------------------------------------------------

/// The separators a pasted id may carry at either end.
pub open spec fn is_list_sep(c: char) -> bool {
    c == ',' || c == ';' || c == '|'
}

/// Leading separators removed.
pub open spec fn trim_seps_start(s: Seq<char>) -> Seq<char>
    decreases s.len(),
{
    if s.len() > 0 && is_list_sep(s[0]) {
        trim_seps_start(s.drop_first())
    } else {
        s
    }
}

/// Trailing separators removed.
pub open spec fn trim_seps_end(s: Seq<char>) -> Seq<char>
    decreases s.len(),
{
    if s.len() > 0 && is_list_sep(s.last()) {
        trim_seps_end(s.drop_last())
    } else {
        s
    }
}

/// Separators removed at both ends (`str::trim_matches`).
pub open spec fn trim_seps(s: Seq<char>) -> Seq<char> {
    trim_seps_end(trim_seps_start(s))
}

fn trim_seps_range(v: &Vec<char>, lo: usize, hi: usize) -> (r: (usize, usize))
    requires
        lo <= hi <= v.len(),
    ensures
        lo <= r.0 <= r.1 <= hi,
        v@.subrange(r.0 as int, r.1 as int) == trim_seps(v@.subrange(lo as int, hi as int)),
{
    let mut a = lo;
    while a < hi && (v[a] == ',' || v[a] == ';' || v[a] == '|')
        invariant
            lo <= a <= hi <= v.len(),
            trim_seps_start(v@.subrange(lo as int, hi as int)) == trim_seps_start(
                v@.subrange(a as int, hi as int),
            ),
        decreases hi - a,
    {
        assert(v@.subrange(a as int, hi as int).drop_first() =~= v@.subrange(a + 1, hi as int));
        a = a + 1;
    }
    let mut b = hi;
    while b > a && (v[b - 1] == ',' || v[b - 1] == ';' || v[b - 1] == '|')
        invariant
            lo <= a <= b <= hi <= v.len(),
            trim_seps_end(v@.subrange(a as int, hi as int)) == trim_seps_end(
                v@.subrange(a as int, b as int),
            ),
        decreases b,
    {
        assert(v@.subrange(a as int, b as int).drop_last() =~= v@.subrange(a as int, b - 1));
        b = b - 1;
    }
    (a, b)
}

/// `(?i)filedetails/\?id=(\d+)`.
pub open spec fn filedetails_pattern() -> PatternSpec {
    simple_spec("filedetails/?id="@, true, false, CharClass::Decimal, true, ""@)
}

/// `(?i)ggntw\.com/steam/(\d+)`.
pub open spec fn ggntw_pattern() -> PatternSpec {
    simple_spec("ggntw.com/steam/"@, true, false, CharClass::Decimal, true, ""@)
}

/// `\bid=(\d+)`.
pub open spec fn id_param_pattern() -> PatternSpec {
    simple_spec("id="@, false, true, CharClass::Decimal, true, ""@)
}

/// The item id in a link or a bare number: the text is trimmed of white
/// space and then of `,` `;` `|`; a whole-number text is the id; otherwise
/// the first of the three link patterns that matches decides, and its
/// digits must be a `u64`.
pub open spec fn spec_parse_workshop_id(input: Seq<char>) -> Option<nat> {
    let t = trim_seps(trim(input));
    if t.len() == 0 {
        None
    } else if parse_uint(t, u64::MAX as nat) is Some {
        parse_uint(t, u64::MAX as nat)
    } else if capture_first(filedetails_pattern(), t) is Some {
        parse_uint(capture_first(filedetails_pattern(), t).unwrap(), u64::MAX as nat)
    } else if capture_first(ggntw_pattern(), t) is Some {
        parse_uint(capture_first(ggntw_pattern(), t).unwrap(), u64::MAX as nat)
    } else {
        match capture_first(id_param_pattern(), t) {
            Some(c) => parse_uint(c, u64::MAX as nat),
            None => None,
        }
    }
}

/// An optional `u64` as an optional number.
pub open spec fn opt_u64(r: Option<u64>) -> Option<nat> {
    match r {
        Some(n) => Some(n as nat),
        None => None,
    }
}

/// Extracts a Steam Workshop item id from a link or a bare number.
pub fn parse_workshop_id(input: &str) -> (r: Option<u64>)
    ensures
        opt_u64(r) == spec_parse_workshop_id(input@),
{
    let v = chars_of(input);
    assert(v@.subrange(0, v@.len() as int) =~= v@);
    let (a, b) = trim_range(&v, 0, v.len());
    let (c, d) = trim_seps_range(&v, a, b);
    if c == d {
        return None;
    }
    let mut t: Vec<char> = Vec::new();
    push_range(&mut t, &v, c, d);
    assert(t@ =~= trim_seps(trim(input@)));
    assert(t@.subrange(0, t@.len() as int) =~= t@);
    match parse_u64_range(&t, 0, t.len()) {
        Some(n) => {
            return Some(n);
        },
        None => {},
    }
    let p1 = make_pattern("filedetails/?id=", true, false, CharClass::Decimal, true, "");
    match capture_first_exec(&p1, &t) {
        Some(cap) => {
            return parse_u64(cap.as_str());
        },
        None => {},
    }
    let p2 = make_pattern("ggntw.com/steam/", true, false, CharClass::Decimal, true, "");
    match capture_first_exec(&p2, &t) {
        Some(cap) => {
            return parse_u64(cap.as_str());
        },
        None => {},
    }
    let p3 = make_pattern("id=", false, true, CharClass::Decimal, true, "");
    match capture_first_exec(&p3, &t) {
        Some(cap) => parse_u64(cap.as_str()),
        None => None,
    }
}

// ---------------------------------------------------------------------------
// Lists of ids
// ---------------------------------------------------------------------------

/// One line of a pasted list applied to the ids so far and the count of
/// unreadable lines: blank lines are ignored, an id already in the list is
/// kept once, a line without an id is counted.
pub open spec fn list_step(acc: (Seq<u64>, nat), line: Seq<char>) -> (Seq<u64>, nat) {
    let l = trim(line);
    if l.len() == 0 {
        acc
    } else {
        match spec_parse_workshop_id(l) {
            Some(id) => if acc.0.contains(id as u64) {
                acc
            } else {
                (acc.0.push(id as u64), acc.1)
            },
            None => (acc.0, acc.1 + 1),
        }
    }
}

/// The first `k` lines applied in order.
pub open spec fn list_fold(ls: Seq<Seq<char>>, k: int) -> (Seq<u64>, nat)
    decreases k,
{
    if k <= 0 {
        (Seq::empty(), 0)
    } else {
        list_step(list_fold(ls, k - 1), ls[k - 1])
    }
}

/// The ids of a pasted list, one per line, and the number of lines that
/// held none.
pub open spec fn spec_parse_workshop_id_list(text: Seq<char>) -> (Seq<u64>, nat) {
    list_fold(lines(text), lines(text).len() as int)
}

/// Every fold result lists each id once.
pub proof fn lemma_list_fold_distinct(ls: Seq<Seq<char>>, k: int)
    ensures
        list_fold(ls, k).0.no_duplicates(),
    decreases k,
{
    if k > 0 {
        lemma_list_fold_distinct(ls, k - 1);
    }
}

/// Parses one workshop id or link per line: the ids in order of first
/// appearance, each once, and the number of non-blank lines without one.
pub fn parse_workshop_id_list(text: &str) -> (r: (Vec<u64>, usize))
    ensures
        (r.0@, r.1 as nat) == spec_parse_workshop_id_list(text@),
        r.0@.no_duplicates(),
{
    let v = chars_of(text);
    let ranges = line_ranges(&v);
    let ghost ls = lines(v@);
    let mut ids: Vec<u64> = Vec::new();
    let mut seen: HashSet<u64> = HashSet::new();
    let mut skipped: usize = 0;
    let mut k: usize = 0;
    while k < ranges.len()
        invariant
            k <= ranges.len(),
            forall|x: u64| #[trigger] seen@.contains(x) <==> ids@.contains(x),
            ls == lines(v@),
            v@ == text@,
            ranges@.len() == ls.len(),
            forall|j: int|
                #![trigger ranges@[j]]
                0 <= j < ranges@.len() ==> ranges@[j].0 <= ranges@[j].1 <= v@.len() && ls[j]
                    == v@.subrange(ranges@[j].0 as int, ranges@[j].1 as int),
            (ids@, skipped as nat) == list_fold(ls, k as int),
            skipped <= k,
        decreases ranges.len() - k,
    {
        let (lo, hi) = ranges[k];
        let ghost line = ls[k as int];
        assert(line == v@.subrange(lo as int, hi as int));
        let (a, b) = trim_range(&v, lo, hi);
        if a < b {
            let mut lv: Vec<char> = Vec::new();
            push_range(&mut lv, &v, a, b);
            assert(lv@ =~= trim(line));
            let ls_str = string_of(&lv);
            match parse_workshop_id(ls_str.as_str()) {
                Some(id) => {
                    let ghost seen0 = seen@;
                    let ghost ids0 = ids@;
                    if seen.insert(id) {
                        ids.push(id);
                        assert forall|x: u64| #[trigger] seen@.contains(x) <==> ids@.contains(x) by {
                            assert(seen@ == seen0.insert(id));
                            assert(ids@ == ids0.push(id));
                            if ids0.contains(x) {
                                let j = choose|j: int| 0 <= j < ids0.len() && ids0[j] == x;
                                assert(ids@[j] == x);
                            }
                            if ids@.contains(x) && x != id {
                                let j = choose|j: int| 0 <= j < ids@.len() && ids@[j] == x;
                                assert(j < ids0.len());
                                assert(ids0[j] == x);
                            }
                            assert(ids@[ids0.len() as int] == id);
                        }
                    }
                },
                None => {
                    skipped = skipped + 1;
                },
            }
        }
        k = k + 1;
    }
    proof {
        lemma_list_fold_distinct(ls, ls.len() as int);
    }
    (ids, skipped)
}

/// The ids written one per line, each line ended by `\n`.
pub open spec fn id_lines(ids: Seq<u64>) -> Seq<char>
    decreases ids.len(),
{
    if ids.len() == 0 {
        Seq::empty()
    } else {
        decimal(ids[0] as nat) + seq!['\n'] + id_lines(ids.drop_first())
    }
}

/// The list rewritten to one id per line, or `None` when it holds no id.
pub open spec fn spec_normalize_to_id_list(text: Seq<char>) -> Option<Seq<char>> {
    let ids = spec_parse_workshop_id_list(text).0;
    if ids.len() == 0 {
        None
    } else {
        Some(id_lines(ids))
    }
}

fn push_id_lines(out: &mut Vec<char>, ids: &Vec<u64>)
    ensures
        final(out)@ == old(out)@ + id_lines(ids@),
{
    let mut k: usize = ids.len();
    let ghost start = out@;
    let mut tail: Vec<char> = Vec::new();
    // Build from the back so each step prepends one line.
    while k > 0
        invariant
            k <= ids.len(),
            tail@ == id_lines(ids@.skip(k as int)),
        decreases k,
    {
        let mut line: Vec<char> = Vec::new();
        push_decimal(&mut line, ids[k - 1]);
        line.push('\n');
        crate::text::extend_chars(&mut line, &tail);
        proof {
            let s = ids@.skip(k - 1);
            assert(s.drop_first() =~= ids@.skip(k as int));
            assert(s[0] == ids@[k - 1]);
            assert(line@ =~= decimal(s[0] as nat) + seq!['\n'] + id_lines(s.drop_first()));
        }
        tail = line;
        k = k - 1;
    }
    assert(ids@.skip(0) =~= ids@);
    crate::text::extend_chars(out, &tail);
}

/// Rewrites a pasted list to one numeric id per line (links become ids),
/// ending with a newline; `None` when the list holds no id.
pub fn normalize_to_id_list(text: &str) -> (r: Option<String>)
    ensures
        r matches Some(s) ==> spec_normalize_to_id_list(text@) == Some(s@),
        r is None ==> spec_normalize_to_id_list(text@) is None,
{
    let (ids, _) = parse_workshop_id_list(text);
    if ids.len() == 0 {
        None
    } else {
        let mut out: Vec<char> = Vec::new();
        push_id_lines(&mut out, &ids);
        assert(out@ =~= id_lines(ids@));
        Some(string_of(&out))
    }
}

/// The public GGNetwork page of an item.
pub open spec fn spec_gg_page_url(workshop_id: nat) -> Seq<char> {
    "https://ggntw.com/steam/"@ + decimal(workshop_id)
}

/// The public GGNetwork download page of a workshop item.
pub fn gg_page_url(workshop_id: u64) -> (r: String)
    ensures
        r@ == spec_gg_page_url(workshop_id as nat),
{
    let mut v = chars_of("https://ggntw.com/steam/");
    push_decimal(&mut v, workshop_id);
    string_of(&v)
}

// ---------------------------------------------------------------------------
// Reading back a normalized list
// ---------------------------------------------------------------------------

/// Lines after a prefix are the lines of the rest.
proof fn lemma_lines_shift(pre: Seq<char>, rest: Seq<char>, j: int)
    requires
        0 <= j,
    ensures
        lines_from(pre + rest, pre.len() + j) == lines_from(rest, j),
    decreases rest.len() - j,
{
    let s = pre + rest;
    let p = pre.len() as int;
    let from = p + j;
    if j < rest.len() {
        match find_char_from(rest, '\n', j) {
            Some(i) => {
                assert(first_char_at(rest, '\n', j, i));
                assert(first_char_at(s, '\n', from, p + i));
                let w = choose|k: int| first_char_at(s, '\n', from, k);
                assert(w == p + i) by {
                    if w < p + i {
                        assert(rest[w - p] != '\n');
                        assert(s[w] == rest[w - p]);
                    } else if w > p + i {
                        assert(s[p + i] == rest[i]);
                    }
                }
                assert(s.subrange(p + j, p + i) =~= rest.subrange(j, i));
                lemma_lines_shift(pre, rest, i + 1);
            },
            None => {
                assert forall|k: int| !#[trigger] first_char_at(s, '\n', from, k) by {
                    if first_char_at(s, '\n', from, k) {
                        assert(s[k] == rest[k - p]);
                        assert(first_char_at(rest, '\n', j, k - p)) by {
                            assert forall|m: int| j <= m < k - p implies rest[m] != '\n' by {
                                assert(s[m + p] == rest[m]);
                            }
                        }
                    }
                }
                assert(s.subrange(p + j, s.len() as int) =~= rest.subrange(j, rest.len() as int));
            },
        }
    }
}

/// A decimal number holds no white space, separator or newline.
pub proof fn lemma_decimal_plain(n: nat)
    ensures
        trim(decimal(n)) == decimal(n),
        trim_seps(decimal(n)) == decimal(n),
        forall|i: int| 0 <= i < decimal(n).len() ==> #[trigger] decimal(n)[i] != '\n',
        decimal(n).len() > 0,
        decimal(n).last() != '\r',
{
    crate::text::lemma_decimal_digits(n);
    let d = decimal(n);
    assert(crate::text::is_ascii_digit(d[0]));
    assert(crate::text::is_ascii_digit(d.last()));
    assert(!is_space(d[0]));
    assert(!is_space(d.last()));
    assert(crate::text::trim_start(d) == d);
    assert(crate::text::trim_end(d) == d);
    assert(trim_seps_start(d) == d);
    assert(trim_seps_end(d) == d);
    assert forall|i: int| 0 <= i < d.len() implies #[trigger] d[i] != '\n' by {
        assert(crate::text::is_ascii_digit(d[i]));
    }
}

/// A written number reads back as the id it denotes.
proof fn lemma_parse_written_id(n: u64)
    ensures
        spec_parse_workshop_id(decimal(n as nat)) == Some(n as nat),
        trim(decimal(n as nat)) == decimal(n as nat),
        trim(decimal(n as nat)).len() > 0,
{
    lemma_decimal_plain(n as nat);
    crate::text::lemma_parse_decimal(n as nat, u64::MAX as nat);
}

/// The lines of written ids are the written ids.
pub proof fn lemma_id_lines_lines(ids: Seq<u64>)
    ensures
        lines(id_lines(ids)) == ids.map_values(|x: u64| decimal(x as nat)),
    decreases ids.len(),
{
    if ids.len() == 0 {
        assert(lines(id_lines(ids)) =~= ids.map_values(|x: u64| decimal(x as nat)));
    } else {
        let d = decimal(ids[0] as nat);
        let pre = d + seq!['\n'];
        let rest = id_lines(ids.drop_first());
        let s = id_lines(ids);
        assert(s == pre + rest);
        lemma_decimal_plain(ids[0] as nat);
        assert(first_char_at(s, '\n', 0, d.len() as int)) by {
            assert forall|j: int| 0 <= j < d.len() implies s[j] != '\n' by {
                assert(s[j] == d[j]);
            }
        }
        let w = choose|k: int| first_char_at(s, '\n', 0, k);
        assert(w == d.len()) by {
            if w < d.len() {
                assert(s[w] == d[w]);
            }
        }
        assert(s.subrange(0, d.len() as int) =~= d);
        assert(crate::text::strip_cr(d) == d);
        lemma_lines_shift(pre, rest, 0);
        lemma_id_lines_lines(ids.drop_first());
        assert(lines(s) =~= ids.map_values(|x: u64| decimal(x as nat)));
    }
}

/// Folding written, distinct ids gives them back, none skipped.
proof fn lemma_fold_written_ids(ids: Seq<u64>, k: int)
    requires
        ids.no_duplicates(),
        0 <= k <= ids.len(),
    ensures
        list_fold(ids.map_values(|x: u64| decimal(x as nat)), k) == (ids.take(k), 0nat),
    decreases k,
{
    let ls = ids.map_values(|x: u64| decimal(x as nat));
    if k == 0 {
        assert(ids.take(0) =~= Seq::<u64>::empty());
    } else {
        lemma_fold_written_ids(ids, k - 1);
        lemma_parse_written_id(ids[k - 1]);
        assert(ls[k - 1] == decimal(ids[k - 1] as nat));
        let prev = ids.take(k - 1);
        let x = ids[k - 1];
        assert(!prev.contains(x)) by {
            if prev.contains(x) {
                let j = choose|j: int| 0 <= j < prev.len() && #[trigger] prev[j] == x;
                assert(ids[j] == x);
            }
        }
        assert(ids.take(k - 1).push(ids[k - 1]) =~= ids.take(k));
    }
}

/// A list rewritten by `normalize_to_id_list` reads back as the same ids,
/// in the same order, with no line skipped.
pub proof fn law_normalized_list_reads_back(text: Seq<char>)
    requires
        spec_normalize_to_id_list(text) is Some,
    ensures
        spec_parse_workshop_id_list(spec_normalize_to_id_list(text).unwrap()) == (
            spec_parse_workshop_id_list(text).0,
            0nat,
        ),
{
    let ids = spec_parse_workshop_id_list(text).0;
    lemma_list_fold_distinct(lines(text), lines(text).len() as int);
    lemma_id_lines_lines(ids);
    lemma_fold_written_ids(ids, ids.len() as int);
    assert(ids.take(ids.len() as int) =~= ids);
}

/// Rewriting a list twice gives the same text as rewriting it once.
pub proof fn law_normalize_twice_is_once(text: Seq<char>)
    requires
        spec_normalize_to_id_list(text) is Some,
    ensures
        spec_normalize_to_id_list(spec_normalize_to_id_list(text).unwrap()) == spec_normalize_to_id_list(text),
{
    law_normalized_list_reads_back(text);
}

// ---------------------------------------------------------------------------
// Folder names
// ---------------------------------------------------------------------------

/// `char::is_control`: the C0 and C1 control characters.
pub open spec fn is_control(c: char) -> bool {
    (c as u32) <= 0x1f || (0x7f <= (c as u32) && (c as u32) <= 0x9f)
}

/// A character that cannot stand in a Windows file name.
pub open spec fn is_illegal_in_name(c: char) -> bool {
    c == '\\' || c == '/' || c == ':' || c == '*' || c == '?' || c == '"' || c == '<' || c == '>'
        || c == '|' || is_control(c)
}

/// The character as it stands in a folder name.
pub open spec fn folder_char(c: char) -> char {
    if is_illegal_in_name(c) {
        '_'
    } else {
        c
    }
}

/// Trailing dots removed.
pub open spec fn trim_dots_end(s: Seq<char>) -> Seq<char>
    decreases s.len(),
{
    if s.len() > 0 && s.last() == '.' {
        trim_dots_end(s.drop_last())
    } else {
        s
    }
}

/// The name with illegal characters replaced, trimmed, without trailing
/// dots, before the length limit applies.
pub open spec fn sanitize_stage(name: Seq<char>) -> Seq<char> {
    trim_dots_end(trim(name.map_values(|c: char| folder_char(c))))
}

/// Longest folder name, in UTF-8 bytes.
pub open spec fn max_name_bytes() -> nat {
    80
}

/// The cut at the length limit falls between two characters (otherwise
/// `String::truncate` panics).
pub open spec fn folder_name_cuttable(name: Seq<char>) -> bool {
    let m = sanitize_stage(name);
    utf8_len(m) <= max_name_bytes() || char_index_of_byte(m, max_name_bytes()) is Some
}

/// `name` made safe as a Windows folder name: illegal and control
/// characters become `_`, white space is trimmed and trailing dots dropped,
/// the result is cut to 80 bytes and trimmed again, and an empty result is
/// `Unknown`.
pub open spec fn spec_sanitize_folder_name(name: Seq<char>) -> Seq<char> {
    let m = sanitize_stage(name);
    let c = if utf8_len(m) > max_name_bytes() {
        crate::text::trim_end(m.take(char_index_of_byte(m, max_name_bytes()).unwrap()))
    } else {
        m
    };
    if c.len() == 0 {
        "Unknown"@
    } else {
        c
    }
}

/// The longest prefix of `v` that fits in `b` bytes, and its byte length.
fn bytes_prefix(v: &Vec<char>, b: usize) -> (r: (usize, usize))
    requires
        b <= 1024,
    ensures
        r.0 <= v.len(),
        r.1 == utf8_len(v@.take(r.0 as int)),
        r.1 <= b,
        r.0 < v.len() ==> utf8_len(v@.take(r.0 + 1)) > b,
{
    let mut k: usize = 0;
    let mut bytes: usize = 0;
    assert(v@.take(0) =~= Seq::<char>::empty());
    while k < v.len()
        invariant
            k <= v.len(),
            bytes == utf8_len(v@.take(k as int)),
            bytes <= b <= 1024,
        decreases v.len() - k,
    {
        let w = utf8_width_exec(v[k]);
        assert(v@.take(k + 1).drop_last() =~= v@.take(k as int));
        if bytes + w > b {
            return (k, bytes);
        }
        bytes = bytes + w;
        k = k + 1;
    }
    (k, bytes)
}

/// How `v` relates to a byte limit: whether it is longer, and where the
/// limit falls between characters.
proof fn lemma_bytes_prefix_facts(s: Seq<char>, b: nat, k: int, bytes: nat)
    requires
        0 <= k <= s.len(),
        bytes == utf8_len(s.take(k)),
        bytes <= b,
        k < s.len() ==> utf8_len(s.take(k + 1)) > b,
    ensures
        (utf8_len(s) > b) == (k < s.len()),
        k < s.len() ==> ((char_index_of_byte(s, b) is Some) == (bytes == b)),
        k < s.len() && bytes == b ==> char_index_of_byte(s, b) == Some(k),
{
    if k < s.len() {
        crate::archive::lemma_utf8_len_take_le(s, k + 1);
        if bytes == b {
            let w = choose|j: int| 0 <= j <= s.len() && utf8_len(s.take(j)) == b;
            if w < k {
                crate::archive::lemma_utf8_len_take_increasing(s, w, k);
            } else if w > k {
                if w > k + 1 {
                    crate::archive::lemma_utf8_len_take_increasing(s, k + 1, w);
                }
            }
        } else {
            assert forall|j: int| 0 <= j <= s.len() implies utf8_len(#[trigger] s.take(j)) != b by {
                if j < k {
                    crate::archive::lemma_utf8_len_take_increasing(s, j, k);
                } else if j > k + 1 {
                    crate::archive::lemma_utf8_len_take_increasing(s, k + 1, j);
                }
            }
        }
    } else {
        assert(s.take(k) =~= s);
    }
}

/// The name after replacing, trimming and dropping trailing dots.
fn sanitize_stage_exec(name: &str) -> (r: Vec<char>)
    ensures
        r@ == sanitize_stage(name@),
{
    let v = chars_of(name);
    let mut m: Vec<char> = Vec::new();
    let mut i: usize = 0;
    while i < v.len()
        invariant
            i <= v.len(),
            v@ == name@,
            m@ == v@.take(i as int).map_values(|c: char| folder_char(c)),
        decreases v.len() - i,
    {
        let c = v[i];
        let u = c as u32;
        let bad = c == '\\' || c == '/' || c == ':' || c == '*' || c == '?' || c == '"' || c
            == '<' || c == '>' || c == '|' || u <= 0x1f || (0x7f <= u && u <= 0x9f);
        m.push(if bad { '_' } else { c });
        assert(v@.take(i + 1).map_values(|c: char| folder_char(c)) =~= v@.take(i as int).map_values(
            |c: char| folder_char(c),
        ).push(folder_char(c)));
        i = i + 1;
    }
    assert(v@.take(v.len() as int) =~= v@);
    let (a, b) = trim_range(&m, 0, m.len());
    assert(m@.subrange(0, m@.len() as int) =~= m@);
    let mut e = b;
    while e > a && m[e - 1] == '.'
        invariant
            a <= e <= b <= m.len(),
            trim_dots_end(m@.subrange(a as int, b as int)) == trim_dots_end(
                m@.subrange(a as int, e as int),
            ),
        decreases e,
    {
        assert(m@.subrange(a as int, e as int).drop_last() =~= m@.subrange(a as int, e - 1));
        e = e - 1;
    }
    let mut r: Vec<char> = Vec::new();
    push_range(&mut r, &m, a, e);
    assert(r@ =~= m@.subrange(a as int, e as int));
    r
}

/// Whether `sanitize_folder_name` can cut `name` at the length limit.
pub fn folder_name_is_cuttable(name: &str) -> (r: bool)
    ensures
        r == folder_name_cuttable(name@),
{
    let m = sanitize_stage_exec(name);
    let (k, bytes) = bytes_prefix(&m, 80);
    proof {
        lemma_bytes_prefix_facts(m@, 80, k as int, bytes as nat);
    }
    k == m.len() || bytes == 80
}

/// Replaces characters that are illegal in Windows file and folder names.
pub fn sanitize_folder_name(name: &str) -> (r: String)
    requires
        folder_name_cuttable(name@),
    ensures
        r@ == spec_sanitize_folder_name(name@),
{
    let m = sanitize_stage_exec(name);
    let (k, bytes) = bytes_prefix(&m, 80);
    proof {
        lemma_bytes_prefix_facts(m@, 80, k as int, bytes as nat);
    }
    let mut end = m.len();
    if k < m.len() {
        end = crate::text::trim_end_range(&m, 0, k);
        assert(m@.subrange(0, k as int) =~= m@.take(k as int));
    } else {
        assert(m@.subrange(0, m@.len() as int) =~= m@);
    }
    if end == 0 {
        proof {
            reveal_strlit("Unknown");
        }
        return String::from_str("Unknown");
    }
    string_of_range(&m, 0, end)
}

/// The folder under `root` that downloads of `game_name` go to.
pub fn game_download_dir(root: &str, game_name: &str) -> (r: String)
    requires
        folder_name_cuttable(game_name@),
    ensures
        r@ == spec_join(root@, spec_sanitize_folder_name(game_name@)),
{
    let name = sanitize_folder_name(game_name);
    join(root, name.as_str())
}

/// The file name a downloaded mod is saved under: the sanitized name, with
/// `.zip` added when it has no dot.
pub open spec fn spec_sanitize_file_name(name: Seq<char>) -> Seq<char> {
    let base = spec_sanitize_folder_name(name);
    if base.contains('.') {
        base
    } else {
        base + ".zip"@
    }
}

/// The file name a downloaded mod is saved under.
pub fn sanitize_file_name(name: &str) -> (r: String)
    requires
        folder_name_cuttable(name@),
    ensures
        r@ == spec_sanitize_file_name(name@),
{
    let base = sanitize_folder_name(name);
    let v = chars_of(base.as_str());
    match crate::text::find_char_exec(&v, '.', 0) {
        Some(i) => {
            assert(v@[i as int] == '.');
            base
        },
        None => {
            assert(!v@.contains('.'));
            let mut w = v;
            let z = chars_of(".zip");
            crate::text::extend_chars(&mut w, &z);
            string_of(&w)
        },
    }
}

// ---------------------------------------------------------------------------
// HTML text and download pages
// ---------------------------------------------------------------------------

/// The entities a workshop page uses, decoded in this order:
/// `&amp;` `&lt;` `&gt;` `&quot;` `&#39;` `&nbsp;`.
pub open spec fn spec_decode_html_entities(s: Seq<char>) -> Seq<char> {
    replace_all(
        replace_all(
            replace_all(
                replace_all(
                    replace_all(replace_all(s, "&amp;"@, "&"@), "&lt;"@, "<"@),
                    "&gt;"@,
                    ">"@,
                ),
                "&quot;"@,
                "\""@,
            ),
            "&#39;"@,
            "'"@,
        ),
        "&nbsp;"@,
        " "@,
    )
}

/// Every occurrence of the literal `from` replaced by `to`.
pub fn replace_lit(v: &Vec<char>, from: &str, to: &str) -> (r: Vec<char>)
    requires
        from@.len() > 0,
    ensures
        r@ == replace_all(v@, from@, to@),
{
    let f = chars_of(from);
    let t = chars_of(to);
    replace_all_exec(v, &f, &t)
}

/// Decodes the HTML entities of a workshop page's text.
pub fn decode_html_entities(s: &str) -> (r: String)
    ensures
        r@ == spec_decode_html_entities(s@),
{
    proof {
        reveal_strlit("&amp;");
        reveal_strlit("&lt;");
        reveal_strlit("&gt;");
        reveal_strlit("&quot;");
        reveal_strlit("&#39;");
        reveal_strlit("&nbsp;");
    }
    let v = chars_of(s);
    let a = replace_lit(&v, "&amp;", "&");
    let b = replace_lit(&a, "&lt;", "<");
    let c = replace_lit(&b, "&gt;", ">");
    let d = replace_lit(&c, "&quot;", "\"");
    let e = replace_lit(&d, "&#39;", "'");
    let f = replace_lit(&e, "&nbsp;", " ");
    string_of(&f)
}

/// What a download response is, from its content type and first byte: text
/// types are pages, binary and application types are files, and otherwise
/// a body that does not start with `<` is a file.
pub open spec fn spec_looks_like_binary(content_type: Seq<char>, bytes: Seq<u8>) -> bool {
    if contains(content_type, "text/html"@) || contains(content_type, "text/plain"@) {
        false
    } else if contains(content_type, "octet-stream"@) || contains(content_type, "zip"@)
        || contains(content_type, "application/"@) {
        true
    } else {
        !(bytes.len() > 0 && bytes[0] == 60)
    }
}

/// Whether a download response is the file rather than an HTML page.
pub fn looks_like_binary(content_type: &str, bytes: &[u8]) -> (r: bool)
    ensures
        r == spec_looks_like_binary(content_type@, bytes@),
{
    let ct = chars_of(content_type);
    if contains_exec(&ct, &chars_of("text/html")) || contains_exec(&ct, &chars_of("text/plain")) {
        return false;
    }
    if contains_exec(&ct, &chars_of("octet-stream")) || contains_exec(&ct, &chars_of("zip"))
        || contains_exec(&ct, &chars_of("application/")) {
        return true;
    }
    !(bytes.len() > 0 && bytes[0] == 60)
}

/// Where the scheme `https://` or `http://` starting at `i` ends.
pub open spec fn scheme_end(s: Seq<char>, i: int) -> Option<int> {
    if occurs_at(s, "https://"@, i) {
        Some(i + 8)
    } else if occurs_at(s, "http://"@, i) {
        Some(i + 7)
    } else {
        None
    }
}

/// A CDN host name lies in `s[p..e]`.
pub open spec fn cdn_host_within(s: Seq<char>, p: int, e: int) -> bool {
    (occurs_at(s, "cdn.ggntw.com"@, p) && p + 13 <= e) || (occurs_at(s, "cdn.ggntw.ru"@, p) && p
        + 12 <= e)
}

/// The link `https?://[^"'\s]*cdn\.ggntw\.(?:com|ru)[^"'\s]*` starting at
/// `i`: a scheme, then a run without quotes or white space that holds a
/// CDN host name; the link is the whole run.
pub open spec fn cdn_link_at(s: Seq<char>, i: int) -> Option<(int, int)> {
    match scheme_end(s, i) {
        Some(j) => {
            let e = span_end(s, j, CharClass::NotQuoteOrSpace);
            if exists|p: int| j <= p && #[trigger] cdn_host_within(s, p, e) {
                Some((i, e))
            } else {
                None
            }
        },
        None => None,
    }
}

/// A host name of length `n` lies in `v[j..e]`.
fn host_within(v: &Vec<char>, host: &Vec<char>, j: usize, e: usize) -> (r: bool)
    requires
        j <= e <= v.len(),
        host@.len() > 0,
    ensures
        r == exists|p: int| j <= p && p + host@.len() <= e && occurs_at(v@, host@, p),
{
    match crate::text::find_from_exec(v, host, j) {
        Some(p) => {
            if p + host.len() <= e {
                true
            } else {
                proof {
                    assert forall|q: int| j <= q && q + host@.len() <= e implies !occurs_at(
                        v@,
                        host@,
                        q,
                    ) by {
                        if occurs_at(v@, host@, q) {
                            crate::text::lemma_first_exists(v@, host@, j as int, q);
                            let w = choose|k: int| crate::text::first_occurrence(v@, host@, j as int, k);
                            crate::text::lemma_find_from_min(v@, host@, j as int, w);
                        }
                    }
                }
                false
            }
        },
        None => {
            proof {
                assert forall|q: int| j <= q && q + host@.len() <= e implies !occurs_at(
                    v@,
                    host@,
                    q,
                ) by {
                    if occurs_at(v@, host@, q) {
                        crate::text::lemma_first_exists(v@, host@, j as int, q);
                    }
                }
            }
            false
        },
    }
}

fn cdn_link_at_exec(v: &Vec<char>, i: usize) -> (r: Option<usize>)
    requires
        i <= v.len(),
    ensures
        r matches Some(e) ==> cdn_link_at(v@, i as int) == Some((i as int, e as int)) && i <= e
            <= v.len(),
        r is None ==> cdn_link_at(v@, i as int) is None,
{
    proof {
        reveal_strlit("cdn.ggntw.com");
        reveal_strlit("cdn.ggntw.ru");
    }
    let j = if crate::text::occurs_at_exec(v, &chars_of("https://"), i) {
        proof {
            reveal_strlit("https://");
        }
        i + 8
    } else if crate::text::occurs_at_exec(v, &chars_of("http://"), i) {
        proof {
            reveal_strlit("http://");
        }
        i + 7
    } else {
        return None;
    };
    let e = crate::pattern::span_end_exec(v, j, &CharClass::NotQuoteOrSpace);
    let com = chars_of("cdn.ggntw.com");
    let ru = chars_of("cdn.ggntw.ru");
    let found = host_within(v, &com, j, e) || host_within(v, &ru, j, e);
    proof {
        let ghost ee = span_end(v@, j as int, CharClass::NotQuoteOrSpace);
        assert(ee == e);
        if found {
            if exists|p: int| j <= p && p + 13 <= e && occurs_at(v@, com@, p) {
                let p = choose|p: int| j <= p && p + 13 <= e && occurs_at(v@, com@, p);
                assert(cdn_host_within(v@, p, e as int));
            } else {
                let p = choose|p: int| j <= p && p + 12 <= e && occurs_at(v@, ru@, p);
                assert(cdn_host_within(v@, p, e as int));
            }
        } else {
            assert forall|p: int| j <= p implies !#[trigger] cdn_host_within(v@, p, e as int) by {}
        }
    }
    if found {
        Some(e)
    } else {
        None
    }
}

/// Finds the first GGNetwork CDN link in a download page.
pub fn extract_cdn_url(html: &str) -> (r: Option<String>)
    ensures
        r matches Some(u) ==> spec_extract_cdn_url(html@) == Some(u@),
        r is None ==> spec_extract_cdn_url(html@) is None,
{
    let v = chars_of(html);
    let ghost m = |i: int| cdn_link_at(v@, i);
    let mut i: usize = 0;
    loop
        invariant
            i <= v.len(),
            v@ == html@,
            m == (|i: int| cdn_link_at(v@, i)),
            forall|j: int| 0 <= j < i ==> #[trigger] m(j) is None,
        ensures
            forall|j: int| 0 <= j <= v.len() ==> #[trigger] m(j) is None,
        decreases v.len() - i,
    {
        match cdn_link_at_exec(&v, i) {
            Some(e) => {
                proof {
                    assert(m(i as int) == Some((i as int, e as int)));
                    assert(crate::pattern::leftmost_at(m, 0, i as int));
                    crate::pattern::lemma_leftmost(m, 0, i as int);
                }
                return Some(string_of_range(&v, i, e));
            },
            None => {},
        }
        if i == v.len() {
            break;
        }
        i = i + 1;
    }
    proof {
        assert forall|j: int| 0 <= j implies #[trigger] m(j) is None by {
            if j > v@.len() {
                assert(!occurs_at(v@, "https://"@, j));
                assert(!occurs_at(v@, "http://"@, j));
            }
        }
        crate::pattern::lemma_leftmost_none(m, 0);
    }
    None
}

/// The first GGNetwork CDN link in a page.
pub open spec fn spec_extract_cdn_url(s: Seq<char>) -> Option<Seq<char>> {
    match leftmost(|i: int| cdn_link_at(s, i), 0) {
        Some(m) => Some(s.subrange(m.0, m.1)),
        None => None,
    }
}

// ---------------------------------------------------------------------------
// What is known of an item
// ---------------------------------------------------------------------------

/// The placeholder name `Item <id>` of an item whose title is unknown.
pub open spec fn item_label(workshop_id: nat) -> Seq<char> {
    "Item "@ + decimal(workshop_id)
}

/// The text `Item <id>`.
pub fn item_label_string(workshop_id: u64) -> (r: String)
    ensures
        r@ == item_label(workshop_id as nat),
{
    let mut v = chars_of("Item ");
    push_decimal(&mut v, workshop_id);
    string_of(&v)
}

/// The placeholder game name.
pub open spec fn unknown_game() -> Seq<char> {
    "Unknown game"@
}

/// The app id a GGNetwork answer gives, or 0.
pub open spec fn gg_app_id(item: Option<GgItemResponse>) -> nat {
    match item {
        Some(i) => match parse_uint(i.game@, u32::MAX as nat) {
            Some(n) => n,
            None => 0,
        },
        None => 0,
    }
}

/// What GGNetwork's answer (if the lookup succeeded) says of an item: the
/// mod's name (its `name` when not blank, else `Item <id>`), the game's
/// name (`App <id>` when the app id is known, else `Unknown game`) and app
/// id (0 when unknown).
pub open spec fn spec_resolve_gg(workshop_id: nat, item: Option<GgItemResponse>) -> (
    Seq<char>,
    Seq<char>,
    nat,
) {
    let mod_name = match item {
        Some(i) => if trim(i.name@).len() > 0 {
            i.name@
        } else {
            item_label(workshop_id)
        },
        None => item_label(workshop_id),
    };
    let app = gg_app_id(item);
    let game = if app != 0 {
        app_label(app)
    } else {
        unknown_game()
    };
    (mod_name, game, app)
}

/// Resolves an item from GGNetwork's answer: mod name, game name, game app
/// id, the answer itself, and whether GGNetwork has the item cached.
pub fn resolve_gg(workshop_id: u64, item: Option<GgItemResponse>) -> (r: (
    String,
    String,
    u32,
    Option<GgItemResponse>,
    bool,
))
    ensures
        (r.0@, r.1@, r.2 as nat) == spec_resolve_gg(workshop_id as nat, item),
        r.3 == item,
        r.4 == (item matches Some(i) && i.result == 1),
{
    let mut mod_name = item_label_string(workshop_id);
    let mut app: u32 = 0;
    let mut available = false;
    match &item {
        Some(i) => {
            available = i.is_available();
            let t = crate::text::trim_str(i.name.as_str());
            if !t.as_str().is_empty() {
                mod_name = i.name.clone();
            }
            match i.game_app_id() {
                Some(n) => {
                    app = n;
                },
                None => {},
            }
        },
        None => {},
    }
    let game = if app != 0 {
        app_label_string(app as u64)
    } else {
        String::from_str("Unknown game")
    };
    (mod_name, game, app, item, available)
}

/// The resolved names and app id are weak: a placeholder name or a game
/// known only by number.
pub open spec fn spec_is_weak(workshop_id: nat, mod_name: Seq<char>, game_name: Seq<char>) -> bool {
    mod_name == item_label(workshop_id) || game_name == unknown_game() || crate::text::starts_with(
        game_name,
        "App "@,
    )
}

/// Whether the resolved names are weak and are worth enriching.
pub fn is_weak(workshop_id: u64, mod_name: &str, game_name: &str) -> (r: bool)
    ensures
        r == spec_is_weak(workshop_id as nat, mod_name@, game_name@),
{
    let label = item_label_string(workshop_id);
    let m = chars_of(mod_name);
    let l = chars_of(label.as_str());
    let g = chars_of(game_name);
    let u = chars_of("Unknown game");
    crate::text::eq_chars(&m, &l) || crate::text::eq_chars(&g, &u) || crate::text::starts_with_exec(
        &g,
        &chars_of("App "),
    )
}

/// A weak result with `GetPublishedFileDetails` applied: its title replaces
/// a placeholder mod name, its app id fills a missing one, and a game known
/// only by placeholder or number is named `App <id>` after the app id.
pub open spec fn spec_enrich_from_published_meta(
    workshop_id: nat,
    mod_name: Seq<char>,
    game_name: Seq<char>,
    game_app_id: nat,
    meta: Option<(Seq<char>, nat)>,
) -> (Seq<char>, Seq<char>, nat) {
    match meta {
        None => (mod_name, game_name, game_app_id),
        Some((title, app)) => {
            let m = if title.len() > 0 && mod_name == item_label(workshop_id) {
                title
            } else {
                mod_name
            };
            let a = if game_app_id == 0 && app != 0 {
                app
            } else {
                game_app_id
            };
            let g = if a != 0 && (game_name == unknown_game() || crate::text::starts_with(
                game_name,
                "App "@,
            )) {
                app_label(a)
            } else {
                game_name
            };
            (m, g, a)
        },
    }
}

/// The metadata as values.
pub open spec fn meta_view(meta: Option<&PublishedFileMeta>) -> Option<(Seq<char>, nat)> {
    match meta {
        Some(m) => Some((m.title@, m.app_id as nat)),
        None => None,
    }
}

/// Applies `GetPublishedFileDetails` fields onto a weak resolve result.
pub fn enrich_from_published_meta(
    workshop_id: u64,
    mod_name: String,
    game_name: String,
    game_app_id: u32,
    meta: Option<&PublishedFileMeta>,
) -> (r: (String, String, u32))
    ensures
        (r.0@, r.1@, r.2 as nat) == spec_enrich_from_published_meta(
            workshop_id as nat,
            mod_name@,
            game_name@,
            game_app_id as nat,
            meta_view(meta),
        ),
{
    match meta {
        None => (mod_name, game_name, game_app_id),
        Some(m) => {
            let label = item_label_string(workshop_id);
            let new_mod = if !m.title.as_str().is_empty() && mod_name == label {
                m.title.clone()
            } else {
                mod_name
            };
            let a = if game_app_id == 0 && m.app_id != 0 {
                m.app_id
            } else {
                game_app_id
            };
            let g = chars_of(game_name.as_str());
            let weak_game = crate::text::eq_chars(&g, &chars_of("Unknown game"))
                || crate::text::starts_with_exec(&g, &chars_of("App "));
            let new_game = if a != 0 && weak_game {
                app_label_string(a as u64)
            } else {
                game_name
            };
            (new_mod, new_game, a)
        },
    }
}

/// A result with what the item's Steam page says (when it could be read):
/// the page's title when not blank, the page's game name when present and
/// not blank, and the page's app id when present.
pub open spec fn spec_enrich_from_steam(
    mod_name: Seq<char>,
    game_name: Seq<char>,
    game_app_id: nat,
    page: Option<(Seq<char>, Option<Seq<char>>, Option<nat>)>,
) -> (Seq<char>, Seq<char>, nat) {
    match page {
        None => (mod_name, game_name, game_app_id),
        Some((m, g, a)) => (
            if trim(m).len() > 0 {
                m
            } else {
                mod_name
            },
            match g {
                Some(x) => if trim(x).len() > 0 {
                    x
                } else {
                    game_name
                },
                None => game_name,
            },
            match a {
                Some(x) => x,
                None => game_app_id,
            },
        ),
    }
}

/// What a workshop page gave, as values.
pub open spec fn page_view(page: Option<(String, Option<String>, Option<u32>)>) -> Option<
    (Seq<char>, Option<Seq<char>>, Option<nat>),
> {
    match page {
        Some((m, g, a)) => Some(
            (
                m@,
                match g {
                    Some(x) => Some(x@),
                    None => None,
                },
                match a {
                    Some(x) => Some(x as nat),
                    None => None,
                },
            ),
        ),
        None => None,
    }
}

/// Fills weak names and app id from what the item's Steam page says
/// (`page`: title, game name, app id; `None` when the page could not be
/// read).
pub fn enrich_from_steam(
    workshop_id: u64,
    mod_name: String,
    game_name: String,
    game_app_id: u32,
    page: Option<(String, Option<String>, Option<u32>)>,
) -> (r: (String, String, u32))
    ensures
        (r.0@, r.1@, r.2 as nat) == spec_enrich_from_steam(
            mod_name@,
            game_name@,
            game_app_id as nat,
            page_view(page),
        ),
{
    match page {
        None => (mod_name, game_name, game_app_id),
        Some((m, g, a)) => {
            let new_mod = if !crate::text::trim_str(m.as_str()).as_str().is_empty() {
                m
            } else {
                mod_name
            };
            let new_game = match g {
                Some(x) => if !crate::text::trim_str(x.as_str()).as_str().is_empty() {
                    x
                } else {
                    game_name
                },
                None => game_name,
            };
            let new_app = match a {
                Some(x) => x,
                None => game_app_id,
            };
            (new_mod, new_game, new_app)
        },
    }
}

/// The mod name and game name an item resolves to: GGNetwork's answer,
/// then (while weak) `GetPublishedFileDetails`, then (while still weak) the
/// item's Steam page, where a still unknown game with a known app id is
/// named `App <id>`.
pub open spec fn spec_resolve_queue_info(
    workshop_id: nat,
    item: Option<GgItemResponse>,
    meta: Option<(Seq<char>, nat)>,
    page: Option<(Seq<char>, Option<Seq<char>>, Option<nat>)>,
) -> (Seq<char>, Seq<char>) {
    let r0 = spec_resolve_gg(workshop_id, item);
    let r1 = if spec_is_weak(workshop_id, r0.0, r0.1) {
        spec_enrich_from_published_meta(workshop_id, r0.0, r0.1, r0.2, meta)
    } else {
        r0
    };
    if spec_is_weak(workshop_id, r1.0, r1.1) {
        let e = spec_enrich_from_steam(r1.0, r1.1, r1.2, page);
        let g = if e.1 == unknown_game() && e.2 != 0 {
            app_label(e.2)
        } else {
            e.1
        };
        (e.0, g)
    } else {
        (r1.0, r1.1)
    }
}

/// Resolves a queued item: GGNetwork's answer (`item`, `None` when the
/// lookup failed) first, then `GetPublishedFileDetails` (`meta`) and the
/// item's Steam page (`page`), each consulted only while the names are
/// still weak. Returns the mod name, the game name, GGNetwork's answer and
/// whether GGNetwork has the item cached.
pub fn resolve_queue_info(
    workshop_id: u64,
    item: Option<GgItemResponse>,
    meta: Option<PublishedFileMeta>,
    page: Option<(String, Option<String>, Option<u32>)>,
) -> (r: (String, String, Option<GgItemResponse>, bool))
    ensures
        (r.0@, r.1@) == spec_resolve_queue_info(
            workshop_id as nat,
            item,
            meta_view(match meta {
                Some(ref m) => Some(m),
                None => None,
            }),
            page_view(page),
        ),
        r.2 == item,
        r.3 == (item matches Some(i) && i.result == 1),
{
    let (mut mod_name, mut game_name, mut app, gg, available) = resolve_gg(workshop_id, item);
    if is_weak(workshop_id, mod_name.as_str(), game_name.as_str()) {
        let e = enrich_from_published_meta(workshop_id, mod_name, game_name, app, meta.as_ref());
        mod_name = e.0;
        game_name = e.1;
        app = e.2;
    }
    if is_weak(workshop_id, mod_name.as_str(), game_name.as_str()) {
        let e = enrich_from_steam(workshop_id, mod_name, game_name, app, page);
        mod_name = e.0;
        let g = chars_of(e.1.as_str());
        if crate::text::eq_chars(&g, &chars_of("Unknown game")) && e.2 != 0 {
            game_name = app_label_string(e.2 as u64);
        } else {
            game_name = e.1;
        }
    }
    (mod_name, game_name, gg, available)
}

/// One row of `GetPublishedFileDetails` applied to the map so far: rows
/// with `result != 1` or a non-numeric id are skipped; the app id is the
/// consumer app, else the creator app; the title is trimmed; a row with
/// neither title nor app id is skipped; a later row for an id replaces an
/// earlier one.
pub open spec fn details_step(
    acc: Map<u64, (Seq<char>, nat)>,
    item: PublishedFileDetailsItem,
) -> Map<u64, (Seq<char>, nat)> {
    if item.result != 1 {
        acc
    } else {
        match parse_uint(item.publishedfileid@, u64::MAX as nat) {
            None => acc,
            Some(id) => {
                let app = if item.consumer_app_id != 0 {
                    item.consumer_app_id as nat
                } else {
                    item.creator_app_id as nat
                };
                let title = trim(item.title@);
                if title.len() == 0 && app == 0 {
                    acc
                } else {
                    acc.insert(id as u64, (title, app))
                }
            },
        }
    }
}

/// The first `k` rows applied in order.
pub open spec fn details_fold(items: Seq<PublishedFileDetailsItem>, k: int) -> Map<
    u64,
    (Seq<char>, nat),
>
    decreases k,
{
    if k <= 0 {
        Map::empty()
    } else {
        details_step(details_fold(items, k - 1), items[k - 1])
    }
}

/// A metadata map as values.
pub open spec fn meta_map_view(m: Map<u64, PublishedFileMeta>) -> Map<u64, (Seq<char>, nat)> {
    Map::new(|k: u64| m.dom().contains(k), |k: u64| (m[k].title@, m[k].app_id as nat))
}

/// Builds the metadata map from the rows of a `GetPublishedFileDetails`
/// answer.
pub fn fetch_published_file_details(items: &Vec<PublishedFileDetailsItem>) -> (r: HashMap<
    u64,
    PublishedFileMeta,
>)
    ensures
        meta_map_view(r@) == details_fold(items@, items@.len() as int),
{
    let mut out: HashMap<u64, PublishedFileMeta> = HashMap::new();
    let mut k: usize = 0;
    assert(meta_map_view(out@) =~= Map::<u64, (Seq<char>, nat)>::empty());
    while k < items.len()
        invariant
            k <= items.len(),
            meta_map_view(out@) == details_fold(items@, k as int),
        decreases items.len() - k,
    {
        let item = &items[k];
        if item.result == 1 {
            match parse_u64(item.publishedfileid.as_str()) {
                Some(id) => {
                    let app = if item.consumer_app_id != 0 {
                        item.consumer_app_id
                    } else {
                        item.creator_app_id
                    };
                    let title = crate::text::trim_str(item.title.as_str());
                    if !(title.as_str().is_empty() && app == 0) {
                        let ghost before = out@;
                        let meta = PublishedFileMeta { title, app_id: app };
                        out.insert(id, meta);
                        assert(meta_map_view(out@) =~= meta_map_view(before).insert(
                            id,
                            (trim(item.title@), app as nat),
                        ));
                    }
                },
                None => {},
            }
        }
        k = k + 1;
    }
    out
}

// ---------------------------------------------------------------------------
// The item's Steam page
// ---------------------------------------------------------------------------

/// `(?is)class="[^"]*workshopItemTitle[^"]*"[^>]*>([^<]+)` at `i`: a
/// `class` value that holds `workshopItemTitle`, the rest of the tag, and
/// the text after it up to the next `<` (not empty): its bounds.
pub open spec fn title_attr_at(s: Seq<char>, i: int) -> Option<(int, int)> {
    if crate::pattern::ci_at(s, i, "class=\""@) {
        let v0 = i + 7;
        let q = span_end(s, v0, CharClass::Not('"'));
        if q < s.len() && exists|p: int|
            v0 <= p && p + 17 <= q && #[trigger] crate::pattern::ci_at(s, p, "workshopItemTitle"@) {
            let r = span_end(s, q + 1, CharClass::Not('>'));
            if r < s.len() {
                let c1 = span_end(s, r + 1, CharClass::Not('<'));
                if c1 > r + 1 {
                    Some((r + 1, c1))
                } else {
                    None
                }
            } else {
                None
            }
        } else {
            None
        }
    } else {
        None
    }
}

/// `(?is)<title>\s*Steam Workshop::([^<]+?)\s*</title>` at `i`: the bounds
/// of the text between `Steam Workshop::` and the closing tag (which, once
/// trimmed, is what the lazy capture gives trimmed).
pub open spec fn title_tag_at(s: Seq<char>, i: int) -> Option<(int, int)> {
    if crate::pattern::ci_at(s, i, "<title>"@) {
        let a = span_end(s, i + 7, CharClass::Space);
        if crate::pattern::ci_at(s, a, "Steam Workshop::"@) {
            let c0 = a + 16;
            let e = span_end(s, c0, CharClass::Not('<'));
            if e > c0 && crate::pattern::ci_at(s, e, "</title>"@) {
                Some((c0, e))
            } else {
                None
            }
        } else {
            None
        }
    } else {
        None
    }
}

/// `(?is)<div class="apphub_AppName[^"]*">([^<]+)`.
pub open spec fn app_name_pattern() -> PatternSpec {
    PatternSpec {
        p1: "<div class=\"apphub_AppName"@,
        case_insensitive: true,
        word_boundary: false,
        skip: Some((CharClass::Not('"'), false)),
        p2: "\">"@,
        capture: CharClass::Not('<'),
        capture_nonempty: true,
        p3: ""@,
    }
}

/// The app id patterns, tried in order.
pub open spec fn app_id_pattern(k: int) -> PatternSpec {
    if k == 0 {
        simple_spec("steamcommunity.com/app/"@, true, false, CharClass::Decimal, true, ""@)
    } else if k == 1 {
        simple_spec("store.steampowered.com/app/"@, true, false, CharClass::Decimal, true, ""@)
    } else {
        simple_spec("data-appid=\""@, true, false, CharClass::Decimal, true, "\""@)
    }
}

/// A text found on the page, trimmed and decoded; `None` when blank.
pub open spec fn page_text(s: Seq<char>, m: Option<(int, int)>) -> Option<Seq<char>> {
    match m {
        Some((a, b)) => {
            let t = spec_decode_html_entities(trim(s.subrange(a, b)));
            if t.len() > 0 {
                Some(t)
            } else {
                None
            }
        },
        None => None,
    }
}

/// The app id from the pattern `k` on: the first pattern whose first match
/// is a `u32`.
pub open spec fn page_app_id(s: Seq<char>, k: int) -> Option<nat>
    decreases 3 - k,
{
    if k >= 3 || k < 0 {
        None
    } else {
        match capture_first(app_id_pattern(k), s) {
            Some(c) => match parse_uint(c, u32::MAX as nat) {
                Some(n) => Some(n),
                None => page_app_id(s, k + 1),
            },
            None => page_app_id(s, k + 1),
        }
    }
}

/// What an item's Steam page says: its title (from the title element when
/// there is one, else the `<title>` tag), the game's name and the app id;
/// `None` when the page shows no title or a blank one.
pub open spec fn spec_workshop_page_info(s: Seq<char>) -> Option<(Seq<char>, Option<Seq<char>>, Option<nat>)> {
    let m1 = leftmost(|i: int| title_attr_at(s, i), 0);
    let title = if m1 is Some {
        page_text(s, m1)
    } else {
        page_text(s, leftmost(|i: int| title_tag_at(s, i), 0))
    };
    match title {
        None => None,
        Some(t) => Some(
            (
                t,
                page_text(s, leftmost(crate::scan::matcher(app_name_pattern(), s), 0)),
                page_app_id(s, 0),
            ),
        ),
    }
}

fn ci_within(v: &Vec<char>, lit: &Vec<char>, from: usize, to: usize) -> (r: bool)
    requires
        from <= to <= v.len(),
    ensures
        r == exists|p: int| from <= p && p + lit@.len() <= to && #[trigger] crate::pattern::ci_at(v@, p, lit@),
{
    if lit.len() > to - from {
        return false;
    }
    let mut p = from;
    while p <= to - lit.len()
        invariant
            from <= p,
            to <= v.len(),
            lit@.len() <= to,
            forall|k: int| from <= k < p ==> !#[trigger] crate::pattern::ci_at(v@, k, lit@),
        decreases to - p,
    {
        if crate::pattern::ci_at_exec(v, p, lit) {
            return true;
        }
        p = p + 1;
    }
    false
}

fn title_attr_at_exec(v: &Vec<char>, i: usize) -> (r: Option<(usize, usize)>)
    requires
        i <= v.len(),
    ensures
        r matches Some(m) ==> title_attr_at(v@, i as int) == Some((m.0 as int, m.1 as int)) && m.0 <= m.1 <= v@.len(),
        r is None ==> title_attr_at(v@, i as int) is None,
{
    if !crate::pattern::ci_at_exec(v, i, &chars_of("class=\"")) {
        return None;
    }
    proof {
        reveal_strlit("class=\"");
        reveal_strlit("workshopItemTitle");
    }
    let v0 = i + 7;
    let q = crate::pattern::span_end_exec(v, v0, &CharClass::Not('"'));
    if q >= v.len() {
        return None;
    }
    if !ci_within(v, &chars_of("workshopItemTitle"), v0, q) {
        return None;
    }
    let r = crate::pattern::span_end_exec(v, q + 1, &CharClass::Not('>'));
    if r >= v.len() {
        return None;
    }
    let c1 = crate::pattern::span_end_exec(v, r + 1, &CharClass::Not('<'));
    if c1 > r + 1 {
        Some((r + 1, c1))
    } else {
        None
    }
}

fn title_tag_at_exec(v: &Vec<char>, i: usize) -> (r: Option<(usize, usize)>)
    requires
        i <= v.len(),
    ensures
        r matches Some(m) ==> title_tag_at(v@, i as int) == Some((m.0 as int, m.1 as int)) && m.0 <= m.1 <= v@.len(),
        r is None ==> title_tag_at(v@, i as int) is None,
{
    if !crate::pattern::ci_at_exec(v, i, &chars_of("<title>")) {
        return None;
    }
    proof {
        reveal_strlit("<title>");
        reveal_strlit("Steam Workshop::");
    }
    let a = crate::pattern::span_end_exec(v, i + 7, &CharClass::Space);
    if !crate::pattern::ci_at_exec(v, a, &chars_of("Steam Workshop::")) {
        return None;
    }
    let c0 = a + 16;
    let e = crate::pattern::span_end_exec(v, c0, &CharClass::Not('<'));
    if e > c0 && crate::pattern::ci_at_exec(v, e, &chars_of("</title>")) {
        Some((c0, e))
    } else {
        None
    }
}

/// The leftmost title element's text bounds.
fn find_title_attr(v: &Vec<char>) -> (r: Option<(usize, usize)>)
    ensures
        r matches Some(m) ==> leftmost(|i: int| title_attr_at(v@, i), 0) == Some((m.0 as int, m.1 as int)) && m.0 <= m.1 <= v@.len(),
        r is None ==> leftmost(|i: int| title_attr_at(v@, i), 0) is None,
{
    let ghost m = |i: int| title_attr_at(v@, i);
    let mut i: usize = 0;
    loop
        invariant
            i <= v.len(),
            m == (|i: int| title_attr_at(v@, i)),
            forall|j: int| 0 <= j < i ==> #[trigger] m(j) is None,
        decreases v.len() - i,
    {
        match title_attr_at_exec(v, i) {
            Some(b) => {
                proof {
                    assert(crate::pattern::leftmost_at(m, 0, i as int));
                    crate::pattern::lemma_leftmost(m, 0, i as int);
                }
                return Some(b);
            },
            None => {},
        }
        if i == v.len() {
            proof {
                assert forall|j: int| 0 <= j implies #[trigger] m(j) is None by {
                    if j > v@.len() {
                        reveal_strlit("class=\"");
                        assert(!crate::pattern::ci_at(v@, j, "class=\""@));
                    }
                }
                crate::pattern::lemma_leftmost_none(m, 0);
            }
            return None;
        }
        i = i + 1;
    }
}

/// The leftmost `<title>` tag's text bounds.
fn find_title_tag(v: &Vec<char>) -> (r: Option<(usize, usize)>)
    ensures
        r matches Some(m) ==> leftmost(|i: int| title_tag_at(v@, i), 0) == Some((m.0 as int, m.1 as int)) && m.0 <= m.1 <= v@.len(),
        r is None ==> leftmost(|i: int| title_tag_at(v@, i), 0) is None,
{
    let ghost m = |i: int| title_tag_at(v@, i);
    let mut i: usize = 0;
    loop
        invariant
            i <= v.len(),
            m == (|i: int| title_tag_at(v@, i)),
            forall|j: int| 0 <= j < i ==> #[trigger] m(j) is None,
        decreases v.len() - i,
    {
        match title_tag_at_exec(v, i) {
            Some(b) => {
                proof {
                    assert(crate::pattern::leftmost_at(m, 0, i as int));
                    crate::pattern::lemma_leftmost(m, 0, i as int);
                }
                return Some(b);
            },
            None => {},
        }
        if i == v.len() {
            proof {
                assert forall|j: int| 0 <= j implies #[trigger] m(j) is None by {
                    if j > v@.len() {
                        reveal_strlit("<title>");
                        assert(!crate::pattern::ci_at(v@, j, "<title>"@));
                    }
                }
                crate::pattern::lemma_leftmost_none(m, 0);
            }
            return None;
        }
        i = i + 1;
    }
}

fn page_text_exec(v: &Vec<char>, m: Option<(usize, usize)>) -> (r: Option<String>)
    requires
        m matches Some(b) ==> b.0 <= b.1 <= v@.len(),
    ensures
        opt_seq_of(r) == page_text(v@, match m {
            Some(b) => Some((b.0 as int, b.1 as int)),
            None => None,
        }),
{
    match m {
        Some((a, b)) => {
            let (t0, t1) = trim_range(v, a, b);
            let mut tv: Vec<char> = Vec::new();
            push_range(&mut tv, v, t0, t1);
            let t = decode_html_entities(string_of(&tv).as_str());
            if t.as_str().is_empty() {
                None
            } else {
                Some(t)
            }
        },
        None => None,
    }
}

/// An optional string as an optional sequence.
pub open spec fn opt_seq_of(o: Option<String>) -> Option<Seq<char>> {
    match o {
        Some(s) => Some(s@),
        None => None,
    }
}

fn app_id_pattern_exec(k: usize) -> (p: Pattern)
    requires
        k < 3,
    ensures
        p@ == app_id_pattern(k as int),
{
    if k == 0 {
        make_pattern("steamcommunity.com/app/", true, false, CharClass::Decimal, true, "")
    } else if k == 1 {
        make_pattern("store.steampowered.com/app/", true, false, CharClass::Decimal, true, "")
    } else {
        make_pattern("data-appid=\"", true, false, CharClass::Decimal, true, "\"")
    }
}

fn page_app_id_exec(v: &Vec<char>) -> (r: Option<u32>)
    ensures
        opt_u32(r) == page_app_id(v@, 0),
{
    let mut k: usize = 0;
    while k < 3
        invariant
            k <= 3,
            page_app_id(v@, 0) == page_app_id(v@, k as int),
        decreases 3 - k,
    {
        let p = app_id_pattern_exec(k);
        match capture_first_exec(&p, v) {
            Some(c) => match crate::text::parse_u32(c.as_str()) {
                Some(n) => {
                    return Some(n);
                },
                None => {},
            },
            None => {},
        }
        k = k + 1;
    }
    None
}

/// An optional `u32` as an optional number.
pub open spec fn opt_u32(r: Option<u32>) -> Option<nat> {
    match r {
        Some(n) => Some(n as nat),
        None => None,
    }
}

/// Reads an item's public Steam page: its title, the game's name and app
/// id; `None` when the page shows no title.
pub fn fetch_workshop_page_info(html: &str) -> (r: Option<(String, Option<String>, Option<u32>)>)
    ensures
        (match r {
            Some((t, g, a)) => Some((t@, opt_seq_of(g), opt_u32(a))),
            None => None,
        }) == spec_workshop_page_info(html@),
{
    let v = chars_of(html);
    let m1 = find_title_attr(&v);
    let title = if m1.is_some() {
        page_text_exec(&v, m1)
    } else {
        page_text_exec(&v, find_title_tag(&v))
    };
    match title {
        None => None,
        Some(t) => {
            let p = Pattern {
                p1: chars_of("<div class=\"apphub_AppName"),
                case_insensitive: true,
                word_boundary: false,
                skip: Some((CharClass::Not('"'), false)),
                p2: chars_of("\">"),
                capture: CharClass::Not('<'),
                capture_nonempty: true,
                p3: chars_of(""),
            };
            let game = page_text_exec(&v, find_exec(&p, &v, 0));
            let app = page_app_id_exec(&v);
            Some((t, game, app))
        },
    }
}

} // verus!
