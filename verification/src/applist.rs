//! The GreenLuma AppList: a folder of `<n>.txt` files, each holding one app
//! id. GoldbergDrop keeps its own folder and Steam's `AppList` folder
//! identical by merging both and writing the merged list to each, and
//! remembers a display name per app id.

use vstd::prelude::*;
use std::collections::HashMap;
use crate::paths::{extension, extension_of};
use crate::text::{
    chars_of, decimal, eq_chars, lines, line_ranges, parse_uint, parse_u32_range, push_decimal,
    string_of, trim, trim_range,
};

verus! {

broadcast use vstd::string::group_string_axioms;

// ---------------------------------------------------------------------------
// Ordering the files
// ---------------------------------------------------------------------------

/// The suffix `.txt`.
pub open spec fn txt_suffix() -> Seq<char> {
    seq!['.', 't', 'x', 't']
}

/// Every trailing `.txt` removed (`str::trim_end_matches(".txt")`).
pub open spec fn trim_txt(name: Seq<char>) -> Seq<char>
    decreases name.len(),
{
    if name.len() >= 4 && name.skip(name.len() - 4) == txt_suffix() {
        trim_txt(name.take(name.len() - 4))
    } else {
        name
    }
}

/// The number a file is sorted by: its name without `.txt` as a `u32`, or
/// `u32::MAX` when that is not a number.
pub open spec fn file_key(name: Seq<char>) -> u32 {
    match parse_uint(trim_txt(name), u32::MAX as nat) {
        Some(n) => n as u32,
        None => u32::MAX,
    }
}

/// `file_key` computed.
pub fn file_key_exec(name: &str) -> (r: u32)
    ensures
        r == file_key(name@),
{
    let v = chars_of(name);
    let mut e = v.len();
    assert(v@.take(e as int) =~= v@);
    while e >= 4 && v[e - 4] == '.' && v[e - 3] == 't' && v[e - 2] == 'x' && v[e - 1] == 't'
        invariant
            e <= v.len(),
            trim_txt(v@) == trim_txt(v@.take(e as int)),
        decreases e,
    {
        let ghost t = v@.take(e as int);
        assert(t.skip(t.len() - 4) =~= txt_suffix());
        assert(t.take(t.len() - 4) =~= v@.take(e - 4));
        e = e - 4;
    }
    proof {
        let t = v@.take(e as int);
        if t.len() >= 4 {
            assert(t.skip(t.len() - 4)[0] == v@[e - 4]);
            assert(t.skip(t.len() - 4)[1] == v@[e - 3]);
            assert(t.skip(t.len() - 4)[2] == v@[e - 2]);
            assert(t.skip(t.len() - 4)[3] == v@[e - 1]);
        }
        assert(v@.subrange(0, e as int) =~= t);
    }
    match parse_u32_range(&v, 0, e) {
        Some(n) => n,
        None => u32::MAX,
    }
}

/// Where insertion sort puts index `x` into `order`: after the last entry
/// whose key is at most `x`'s (so equal keys keep their order).
pub open spec fn insert_pos(order: Seq<usize>, keys: Seq<u32>, x: usize) -> int
    decreases order.len(),
{
    if order.len() == 0 {
        0
    } else if keys[order.last() as int] <= keys[x as int] {
        order.len() as int
    } else {
        insert_pos(order.drop_last(), keys, x)
    }
}

/// The first `n` indices in stable order of their keys
/// (`slice::sort_by_key`).
pub open spec fn sort_order(keys: Seq<u32>, n: int) -> Seq<usize>
    decreases n,
{
    if n <= 0 {
        seq![]
    } else {
        let o = sort_order(keys, n - 1);
        o.insert(insert_pos(o, keys, (n - 1) as usize), (n - 1) as usize)
    }
}

proof fn lemma_insert_pos_bounds(order: Seq<usize>, keys: Seq<u32>, x: usize)
    ensures
        0 <= insert_pos(order, keys, x) <= order.len(),
    decreases order.len(),
{
    if order.len() > 0 {
        lemma_insert_pos_bounds(order.drop_last(), keys, x);
    }
}

proof fn lemma_sort_order_len(keys: Seq<u32>, n: int)
    requires
        n >= 0,
    ensures
        sort_order(keys, n).len() == n,
        forall|j: int| 0 <= j < n ==> #[trigger] sort_order(keys, n)[j] < n,
    decreases n,
{
    if n > 0 {
        let o = sort_order(keys, n - 1);
        lemma_sort_order_len(keys, n - 1);
        lemma_insert_pos_bounds(o, keys, (n - 1) as usize);
        let p = insert_pos(o, keys, (n - 1) as usize);
        assert forall|j: int| 0 <= j < n implies #[trigger] sort_order(keys, n)[j] < n by {
            if j < p {
                assert(sort_order(keys, n)[j] == o[j]);
            } else if j > p {
                assert(sort_order(keys, n)[j] == o[j - 1]);
            }
        }
    }
}

/// `sort_order` computed.
fn sort_order_exec(keys: &Vec<u32>) -> (r: Vec<usize>)
    ensures
        r@ == sort_order(keys@, keys@.len() as int),
        forall|j: int| 0 <= j < r@.len() ==> #[trigger] r@[j] < keys@.len(),
        r@.len() == keys@.len(),
{
    let mut order: Vec<usize> = Vec::new();
    let mut n: usize = 0;
    while n < keys.len()
        invariant
            n <= keys.len(),
            order@ == sort_order(keys@, n as int),
            forall|j: int| 0 <= j < order@.len() ==> #[trigger] order@[j] < n,
            order@.len() == n,
        decreases keys.len() - n,
    {
        let mut j = order.len();
        assert(order@.take(j as int) =~= order@);
        while j > 0 && keys[order[j - 1]] > keys[n]
            invariant
                j <= order.len(),
                n < keys.len(),
                forall|i: int| 0 <= i < order@.len() ==> #[trigger] order@[i] < n,
                insert_pos(order@, keys@, n) == insert_pos(order@.take(j as int), keys@, n),
            decreases j,
        {
            assert(order@.take(j as int).drop_last() =~= order@.take(j - 1));
            j = j - 1;
        }
        proof {
            let t = order@.take(j as int);
            if j > 0 {
                assert(t.last() == order@[j - 1]);
            }
            assert(insert_pos(t, keys@, n) == j);
        }
        let ghost before = order@;
        order.insert(j, n);
        proof {
            assert forall|i: int| 0 <= i < order@.len() implies #[trigger] order@[i] < n + 1 by {
                if i < j {
                    assert(order@[i] == before[i]);
                } else if i > j {
                    assert(order@[i] == before[i - 1]);
                }
            }
        }
        n = n + 1;
    }
    order
}

/// Keys that grow with the index leave the order unchanged.
proof fn lemma_sorted_keys_keep_order(keys: Seq<u32>, n: int)
    requires
        0 <= n <= keys.len(),
        n <= usize::MAX,
        forall|i: int, j: int| 0 <= i < j < n ==> keys[i] < keys[j],
    ensures
        sort_order(keys, n) == Seq::new(n as nat, |i: int| i as usize),
    decreases n,
{
    if n > 0 {
        lemma_sorted_keys_keep_order(keys, n - 1);
        let o = sort_order(keys, n - 1);
        if n > 1 {
            assert(o.last() == (n - 2) as usize);
            assert(keys[n - 2] < keys[n - 1]);
        }
        assert(insert_pos(o, keys, (n - 1) as usize) == n - 1);
        assert(sort_order(keys, n) =~= Seq::new(n as nat, |i: int| i as usize));
    }
}

// ---------------------------------------------------------------------------
// Reading a folder
// ---------------------------------------------------------------------------

/// The files of a folder as values: name and text.
pub open spec fn files_view(files: Seq<(String, String)>) -> Seq<(Seq<char>, Seq<char>)> {
    files.map_values(|f: (String, String)| (f.0@, f.1@))
}

/// The first line of a text, or the empty line.
pub open spec fn first_line(text: Seq<char>) -> Seq<char> {
    if lines(text).len() > 0 {
        lines(text)[0]
    } else {
        seq![]
    }
}

/// One file read into the ids so far: a `.txt` file whose first line,
/// trimmed, is a `u32` adds that id unless it is already listed.
pub open spec fn read_step(acc: Seq<u32>, file: (Seq<char>, Seq<char>)) -> Seq<u32> {
    if extension(file.0) == Some("txt"@) {
        match parse_uint(trim(first_line(file.1)), u32::MAX as nat) {
            Some(id) => if acc.contains(id as u32) {
                acc
            } else {
                acc.push(id as u32)
            },
            None => acc,
        }
    } else {
        acc
    }
}

/// The first `k` files, in the given order, read.
pub open spec fn read_fold(files: Seq<(Seq<char>, Seq<char>)>, order: Seq<usize>, k: int) -> Seq<
    u32,
>
    decreases k,
{
    if k <= 0 {
        seq![]
    } else {
        read_step(read_fold(files, order, k - 1), files[order[k - 1] as int])
    }
}

/// The keys of a folder's files.
pub open spec fn keys_of(files: Seq<(Seq<char>, Seq<char>)>) -> Seq<u32> {
    files.map_values(|f: (Seq<char>, Seq<char>)| file_key(f.0))
}

/// The app ids a folder lists: its files sorted by number, each `.txt`
/// file's first line read as an id, each id once.
pub open spec fn spec_read_ids(files: Seq<(Seq<char>, Seq<char>)>) -> Seq<u32> {
    read_fold(files, sort_order(keys_of(files), files.len() as int), files.len() as int)
}

proof fn lemma_read_fold_distinct(files: Seq<(Seq<char>, Seq<char>)>, order: Seq<usize>, k: int)
    ensures
        read_fold(files, order, k).no_duplicates(),
    decreases k,
{
    if k > 0 {
        lemma_read_fold_distinct(files, order, k - 1);
    }
}

fn contains_u32(v: &Vec<u32>, x: u32) -> (b: bool)
    ensures
        b == v@.contains(x),
{
    let mut i: usize = 0;
    while i < v.len()
        invariant
            i <= v.len(),
            forall|j: int| 0 <= j < i ==> v@[j] != x,
        decreases v.len() - i,
    {
        if v[i] == x {
            assert(v@[i as int] == x);
            return true;
        }
        i = i + 1;
    }
    false
}

/// The id a file contributes, if it is a `.txt` file whose first line is
/// a `u32`.
fn file_id(name: &str, text: &str) -> (r: Option<u32>)
    ensures
        r matches Some(id) ==> extension(name@) == Some("txt"@) && parse_uint(
            trim(first_line(text@)),
            u32::MAX as nat,
        ) == Some(id as nat),
        r is None ==> extension(name@) != Some("txt"@) || parse_uint(
            trim(first_line(text@)),
            u32::MAX as nat,
        ) is None,
{
    let is_txt = match extension_of(name) {
        Some(e) => eq_chars(&chars_of(e.as_str()), &chars_of("txt")),
        None => false,
    };
    if !is_txt {
        return None;
    }
    let v = chars_of(text);
    let ranges = line_ranges(&v);
    let (lo, hi) = if ranges.len() > 0 {
        ranges[0]
    } else {
        (0, 0)
    };
    proof {
        if ranges@.len() > 0 {
            assert(first_line(text@) == v@.subrange(lo as int, hi as int));
        } else {
            assert(first_line(text@) =~= v@.subrange(0, 0));
        }
    }
    let (a, b) = trim_range(&v, lo, hi);
    parse_u32_range(&v, a, b)
}

/// Reads the app ids of an AppList folder from its files (name and text).
pub fn read_ids_from_dir(files: &Vec<(String, String)>) -> (r: Vec<u32>)
    ensures
        r@ == spec_read_ids(files_view(files@)),
        r@.no_duplicates(),
{
    let ghost fv = files_view(files@);
    let mut keys: Vec<u32> = Vec::new();
    let mut i: usize = 0;
    while i < files.len()
        invariant
            i <= files.len(),
            fv == files_view(files@),
            keys@ == keys_of(fv).take(i as int),
        decreases files.len() - i,
    {
        let k = file_key_exec(files[i].0.as_str());
        keys.push(k);
        assert(keys_of(fv).take(i + 1) =~= keys_of(fv).take(i as int).push(k));
        i = i + 1;
    }
    assert(keys@ =~= keys_of(fv));
    let order = sort_order_exec(&keys);
    let mut ids: Vec<u32> = Vec::new();
    let mut k: usize = 0;
    while k < order.len()
        invariant
            k <= order.len(),
            fv == files_view(files@),
            order@ == sort_order(keys_of(fv), fv.len() as int),
            order@.len() == files@.len(),
            forall|j: int| 0 <= j < order@.len() ==> #[trigger] order@[j] < files@.len(),
            ids@ == read_fold(fv, order@, k as int),
        decreases order.len() - k,
    {
        let f = &files[order[k]];
        assert(fv[order@[k as int] as int] == (f.0@, f.1@));
        match file_id(f.0.as_str(), f.1.as_str()) {
            Some(id) => {
                if !contains_u32(&ids, id) {
                    ids.push(id);
                }
            },
            None => {},
        }
        k = k + 1;
    }
    proof {
        lemma_read_fold_distinct(fv, order@, order@.len() as int);
    }
    ids
}

// ---------------------------------------------------------------------------
// Writing a folder
// ---------------------------------------------------------------------------

/// The files an AppList folder holds for `ids`: `<i>.txt` holding the
/// `i`-th id and a newline.
pub open spec fn applist_files(ids: Seq<u32>) -> Seq<(Seq<char>, Seq<char>)> {
    Seq::new(
        ids.len(),
        |i: int| (decimal(i as nat) + ".txt"@, decimal(ids[i] as nat) + seq!['\n']),
    )
}

/// The files to write to an AppList folder for `ids` (the folder's other
/// `.txt` files are removed).
pub fn rewrite_applist_dir(ids: &Vec<u32>) -> (r: Vec<(String, String)>)
    ensures
        files_view(r@) == applist_files(ids@),
{
    let mut out: Vec<(String, String)> = Vec::new();
    let mut i: usize = 0;
    while i < ids.len()
        invariant
            i <= ids.len(),
            files_view(out@) == applist_files(ids@).take(i as int),
        decreases ids.len() - i,
    {
        let mut name: Vec<char> = Vec::new();
        push_decimal(&mut name, i as u64);
        let t = chars_of(".txt");
        crate::text::extend_chars(&mut name, &t);
        let mut text: Vec<char> = Vec::new();
        push_decimal(&mut text, ids[i] as u64);
        text.push('\n');
        let ns = string_of(&name);
        let ts = string_of(&text);
        let ghost before = out@;
        proof {
            assert(ns@ == decimal(i as nat) + ".txt"@);
            assert(ts@ =~= decimal(ids@[i as int] as nat) + seq!['\n']);
        }
        out.push((ns, ts));
        proof {
            assert(files_view(out@) =~= files_view(before).push((ns@, ts@)));
            assert(applist_files(ids@).take(i + 1) =~= applist_files(ids@).take(i as int).push(
                applist_files(ids@)[i as int],
            ));
        }
        assert(files_view(out@) =~= applist_files(ids@).take(i + 1));
        i = i + 1;
    }
    assert(applist_files(ids@).take(ids@.len() as int) =~= applist_files(ids@));
    out
}

/// The file written for index `i` sorts by `i`, and its first line is the id.
proof fn lemma_written_file(ids: Seq<u32>, i: int)
    requires
        0 <= i < ids.len(),
        ids.len() <= u32::MAX,
    ensures
        file_key(applist_files(ids)[i].0) == i,
        extension(applist_files(ids)[i].0) == Some("txt"@),
        parse_uint(trim(first_line(applist_files(ids)[i].1)), u32::MAX as nat) == Some(
            ids[i] as nat,
        ),
{
    reveal_strlit(".txt");
    reveal_strlit("txt");
    let d = decimal(i as nat);
    let name = d + ".txt"@;
    crate::workshop::lemma_decimal_plain(i as nat);
    crate::text::lemma_decimal_digits(i as nat);
    // The key: one `.txt` removed, then digits only.
    assert(name.skip(name.len() - 4) =~= txt_suffix());
    assert(name.take(name.len() - 4) =~= d);
    assert(!(d.len() >= 4 && d.skip(d.len() - 4) == txt_suffix())) by {
        if d.len() >= 4 && d.skip(d.len() - 4) == txt_suffix() {
            assert(d.skip(d.len() - 4)[3] == d.last());
            assert(crate::text::is_ascii_digit(d.last()));
        }
    }
    assert(trim_txt(d) == d);
    assert(trim_txt(name) == d);
    crate::text::lemma_parse_decimal(i as nat, u32::MAX as nat);
    // The extension: the last dot is the one before `txt`.
    let p = d.len() as int;
    assert(name[p] == '.');
    assert forall|j: int| p < j < name.len() implies #[trigger] name[j] != '.' by {}
    let w = choose|m: int|
        0 <= m < name.len() && name[m] == '.' && forall|j: int| m < j < name.len() ==> #[trigger] name[j] != '.';
    assert(w == p) by {
        if w < p {
            assert(crate::text::is_ascii_digit(d[w]));
            assert(name[w] == d[w]);
        } else if w > p {
            assert(name[w] != '.');
        }
    }
    assert(name.skip(p + 1) =~= "txt"@);
    // The first line.
    let id = ids[i];
    crate::workshop::lemma_id_lines_lines(seq![id as u64]);
    assert(crate::workshop::id_lines(seq![id as u64]) =~= decimal(id as nat) + seq!['\n']) by {
        assert(seq![id as u64].drop_first() =~= Seq::<u64>::empty());
        assert(crate::workshop::id_lines(Seq::<u64>::empty()) == Seq::<char>::empty());
        assert(crate::workshop::id_lines(seq![id as u64]) == decimal(id as nat) + seq!['\n']
            + crate::workshop::id_lines(Seq::<u64>::empty()));
    }
    assert(first_line(decimal(id as nat) + seq!['\n']) == decimal(id as nat));
    crate::workshop::lemma_decimal_plain(id as nat);
    crate::text::lemma_parse_decimal(id as nat, u32::MAX as nat);
}

/// Reading back the first `k` written files, in order, gives the first `k`
/// ids.
proof fn lemma_read_written(ids: Seq<u32>, k: int)
    requires
        ids.no_duplicates(),
        ids.len() <= u32::MAX,
        0 <= k <= ids.len(),
    ensures
        read_fold(applist_files(ids), Seq::new(ids.len(), |i: int| i as usize), k) == ids.take(k),
    decreases k,
{
    let order = Seq::new(ids.len(), |i: int| i as usize);
    if k == 0 {
        assert(ids.take(0) =~= Seq::<u32>::empty());
    } else {
        lemma_read_written(ids, k - 1);
        lemma_written_file(ids, k - 1);
        assert(order[k - 1] as int == k - 1);
        let prev = ids.take(k - 1);
        let x = ids[k - 1];
        assert(!prev.contains(x)) by {
            if prev.contains(x) {
                let j = choose|j: int| 0 <= j < prev.len() && #[trigger] prev[j] == x;
                assert(ids[j] == x);
            }
        }
        assert(prev.push(x) =~= ids.take(k));
    }
}

/// A folder written with the ids of a list that names each id once reads
/// back as that list, in the same order.
pub proof fn law_written_applist_reads_back(ids: Seq<u32>)
    requires
        ids.no_duplicates(),
        ids.len() <= u32::MAX,
    ensures
        spec_read_ids(applist_files(ids)) == ids,
{
    let files = applist_files(ids);
    let keys = keys_of(files);
    assert forall|i: int, j: int| 0 <= i < j < ids.len() implies keys[i] < keys[j] by {
        lemma_written_file(ids, i);
        lemma_written_file(ids, j);
    }
    lemma_sorted_keys_keep_order(keys, ids.len() as int);
    assert(files.len() == ids.len());
    lemma_read_written(ids, ids.len() as int);
    assert(ids.take(ids.len() as int) =~= ids);
}

// ---------------------------------------------------------------------------
// Merging and syncing the two folders
// ---------------------------------------------------------------------------

/// `s` with repeats dropped, first occurrence kept, appended to `acc`.
pub open spec fn merge_into(acc: Seq<u32>, s: Seq<u32>) -> Seq<u32>
    decreases s.len(),
{
    if s.len() == 0 {
        acc
    } else {
        let a = if acc.contains(s[0]) {
            acc
        } else {
            acc.push(s[0])
        };
        merge_into(a, s.drop_first())
    }
}

/// The union of Steam's AppList ids (if Steam was found) and ours: Steam's
/// order first, then ours, each id once.
pub open spec fn spec_merge_ids(steam: Option<Seq<u32>>, ours: Seq<u32>) -> Seq<u32> {
    let first = match steam {
        Some(s) => merge_into(seq![], s),
        None => seq![],
    };
    merge_into(first, ours)
}

proof fn lemma_merge_into(acc: Seq<u32>, s: Seq<u32>)
    requires
        acc.no_duplicates(),
    ensures
        merge_into(acc, s).no_duplicates(),
        forall|x: u32| #[trigger] merge_into(acc, s).contains(x) <==> (acc.contains(x) || s.contains(x)),
        merge_into(acc, s).take(acc.len() as int) == acc,
        merge_into(acc, s).len() >= acc.len(),
    decreases s.len(),
{
    if s.len() > 0 {
        let a = if acc.contains(s[0]) {
            acc
        } else {
            acc.push(s[0])
        };
        lemma_merge_into(a, s.drop_first());
        let m = merge_into(a, s.drop_first());
        assert forall|x: u32| #[trigger] m.contains(x) <==> (acc.contains(x) || s.contains(x)) by {
            if s.contains(x) && x != s[0] {
                let j = choose|j: int| 0 <= j < s.len() && s[j] == x;
                assert(s.drop_first()[j - 1] == x);
            }
            if s.drop_first().contains(x) {
                let j = choose|j: int| 0 <= j < s.drop_first().len() && s.drop_first()[j] == x;
                assert(s[j + 1] == x);
            }
            if a.contains(x) && !acc.contains(x) {
                assert(x == s[0]);
                assert(s[0] == s[0]);
            }
            if x == s[0] {
                assert(a.contains(x)) by {
                    if !acc.contains(x) {
                        assert(a[acc.len() as int] == x);
                    }
                }
            }
            if acc.contains(x) {
                let j = choose|j: int| 0 <= j < acc.len() && acc[j] == x;
                assert(a[j] == x);
            }
        }
        assert(m.take(acc.len() as int) =~= acc) by {
            assert(m.take(a.len() as int) == a);
            assert forall|j: int| 0 <= j < acc.len() implies m.take(acc.len() as int)[j] == acc[j] by {
                assert(m.take(a.len() as int)[j] == a[j]);
            }
        }
    } else {
        assert(acc.take(acc.len() as int) =~= acc);
    }
}

fn merge_exec(acc: &mut Vec<u32>, s: &Vec<u32>)
    ensures
        final(acc)@ == merge_into(old(acc)@, s@),
{
    let mut i: usize = 0;
    assert(s@.skip(0) =~= s@);
    while i < s.len()
        invariant
            i <= s.len(),
            merge_into(old(acc)@, s@) == merge_into(acc@, s@.skip(i as int)),
        decreases s.len() - i,
    {
        assert(s@.skip(i as int).drop_first() =~= s@.skip(i + 1));
        assert(s@.skip(i as int)[0] == s@[i as int]);
        if !contains_u32(acc, s[i]) {
            acc.push(s[i]);
        }
        i = i + 1;
    }
    assert(s@.skip(s.len() as int) =~= Seq::<u32>::empty());
}

/// Merges Steam's AppList ids (`None` when Steam was not found) and ours:
/// Steam's order first, then ours, each id once.
pub fn collect_merged_ids(steam: Option<&Vec<u32>>, ours: &Vec<u32>) -> (r: Vec<u32>)
    ensures
        r@ == spec_merge_ids(
            match steam {
                Some(s) => Some(s@),
                None => None,
            },
            ours@,
        ),
        r@.no_duplicates(),
        forall|x: u32|
            #[trigger] r@.contains(x) <==> (ours@.contains(x) || (steam matches Some(s) && s@.contains(x))),
{
    let mut ids: Vec<u32> = Vec::new();
    match steam {
        Some(s) => merge_exec(&mut ids, s),
        None => {},
    }
    proof {
        let e: Seq<u32> = seq![];
        match steam {
            Some(s) => {
                lemma_merge_into(e, s@);
            },
            None => {},
        }
    }
    let ghost first = ids@;
    merge_exec(&mut ids, ours);
    proof {
        lemma_merge_into(first, ours@);
    }
    ids
}

/// Reads both folders, merges their ids and gives the files to write to
/// each so that both list the merged ids: the merged ids and the files.
pub fn ensure_applist_synced(
    steam_files: Option<&Vec<(String, String)>>,
    our_files: &Vec<(String, String)>,
) -> (r: (Vec<u32>, Vec<(String, String)>))
    ensures
        r.0@ == spec_merge_ids(
            match steam_files {
                Some(f) => Some(spec_read_ids(files_view(f@))),
                None => None,
            },
            spec_read_ids(files_view(our_files@)),
        ),
        files_view(r.1@) == applist_files(r.0@),
        r.0@.no_duplicates(),
{
    let ours = read_ids_from_dir(our_files);
    let ids = match steam_files {
        Some(f) => {
            let steam = read_ids_from_dir(f);
            collect_merged_ids(Some(&steam), &ours)
        },
        None => collect_merged_ids(None, &ours),
    };
    let files = rewrite_applist_dir(&ids);
    (ids, files)
}

/// After a sync, each folder, read again, lists the merged ids.
pub proof fn law_synced_folders_agree(
    steam: Option<Seq<(Seq<char>, Seq<char>)>>,
    ours: Seq<(Seq<char>, Seq<char>)>,
)
    requires
        spec_merge_ids(
            match steam {
                Some(f) => Some(spec_read_ids(f)),
                None => None,
            },
            spec_read_ids(ours),
        ).len() <= u32::MAX,
    ensures
        ({
            let merged = spec_merge_ids(
                match steam {
                    Some(f) => Some(spec_read_ids(f)),
                    None => None,
                },
                spec_read_ids(ours),
            );
            spec_read_ids(applist_files(merged)) == merged
        }),
{
    let first = match steam {
        Some(f) => merge_into(seq![], spec_read_ids(f)),
        None => seq![],
    };
    let e: Seq<u32> = seq![];
    match steam {
        Some(f) => {
            lemma_merge_into(e, spec_read_ids(f));
        },
        None => {},
    }
    lemma_merge_into(first, spec_read_ids(ours));
    law_written_applist_reads_back(merge_into(first, spec_read_ids(ours)));
}

/// Merging a list whose ids are new to `acc` appends it whole.
proof fn lemma_merge_appends(acc: Seq<u32>, s: Seq<u32>)
    requires
        (acc + s).no_duplicates(),
    ensures
        merge_into(acc, s) == acc + s,
    decreases s.len(),
{
    if s.len() == 0 {
        assert(acc + s =~= acc);
    } else {
        let whole = acc + s;
        assert(!acc.contains(s[0])) by {
            if acc.contains(s[0]) {
                let j = choose|j: int| 0 <= j < acc.len() && acc[j] == s[0];
                assert(whole[j] == whole[acc.len() as int]);
            }
        }
        assert(acc.push(s[0]) + s.drop_first() =~= whole);
        lemma_merge_appends(acc.push(s[0]), s.drop_first());
    }
}

/// Merging ids that `acc` already holds changes nothing.
proof fn lemma_merge_absorbed(acc: Seq<u32>, s: Seq<u32>)
    requires
        forall|k: int| 0 <= k < s.len() ==> acc.contains(#[trigger] s[k]),
    ensures
        merge_into(acc, s) == acc,
    decreases s.len(),
{
    if s.len() > 0 {
        assert(acc.contains(s[0]));
        assert forall|k: int| 0 <= k < s.drop_first().len() implies acc.contains(#[trigger] s.drop_first()[k]) by {
            assert(s.drop_first()[k] == s[k + 1]);
        }
        lemma_merge_absorbed(acc, s.drop_first());
    }
}

/// Syncing again right after a sync changes nothing: both folders hold the
/// files of the merged ids, which read and merge back to the same ids, so
/// the same files are written (with Steam's folder found or not).
pub proof fn law_second_sync_changes_nothing(merged: Seq<u32>, steam_found: bool)
    requires
        merged.no_duplicates(),
        merged.len() <= u32::MAX,
    ensures
        ({
            let files = applist_files(merged);
            let again = spec_merge_ids(
                if steam_found {
                    Some(spec_read_ids(files))
                } else {
                    None
                },
                spec_read_ids(files),
            );
            &&& again == merged
            &&& applist_files(again) == files
        }),
{
    law_written_applist_reads_back(merged);
    let e: Seq<u32> = seq![];
    assert(e + merged =~= merged);
    lemma_merge_appends(e, merged);
    assert forall|k: int| 0 <= k < merged.len() implies merged.contains(#[trigger] merged[k]) by {}
    lemma_merge_absorbed(merged, merged);
}

// ---------------------------------------------------------------------------
// The list with its names
// ---------------------------------------------------------------------------

/// An app on the list, with its display name.
pub struct AppListEntry {
    pub app_id: u32,
    pub name: String,
}

/// What adding an app did.
pub struct AppListAddResult {
    /// The id was not on the list and was appended.
    pub added: bool,
    /// Steam has to be restarted with GreenLuma so the list is reloaded.
    pub restarted: bool,
}

/// The merged AppList and the display names remembered for its ids.
pub struct AppList {
    pub ids: Vec<u32>,
    pub names: HashMap<u32, String>,
}

/// The display name of an id: the remembered one, else `App <id>`.
pub open spec fn display_name(names: Map<u32, String>, id: u32) -> Seq<char> {
    if names.contains_key(id) {
        names[id]@
    } else {
        crate::greenluma::app_label(id as nat)
    }
}

/// Entries as values.
pub open spec fn entries_view(v: Seq<AppListEntry>) -> Seq<(u32, Seq<char>)> {
    v.map_values(|e: AppListEntry| (e.app_id, e.name@))
}

impl AppList {
    /// The list's entries in order, each with its display name.
    pub fn read_applist(&self) -> (r: Vec<AppListEntry>)
        ensures
            r@.len() == self.ids@.len(),
            forall|i: int|
                0 <= i < r@.len() ==> #[trigger] entries_view(r@)[i] == (
                    self.ids@[i],
                    display_name(self.names@, self.ids@[i]),
                ),
    {
        let mut out: Vec<AppListEntry> = Vec::new();
        let mut i: usize = 0;
        while i < self.ids.len()
            invariant
                i <= self.ids.len(),
                out@.len() == i,
                forall|j: int|
                    0 <= j < i ==> #[trigger] entries_view(out@)[j] == (
                        self.ids@[j],
                        display_name(self.names@, self.ids@[j]),
                    ),
            decreases self.ids.len() - i,
        {
            let id = self.ids[i];
            let name = match self.names.get(&id) {
                Some(n) => n.clone(),
                None => crate::greenluma::app_label_string(id as u64),
            };
            let ghost before = out@;
            out.push(AppListEntry { app_id: id, name });
            proof {
                assert forall|j: int| 0 <= j < i + 1 implies #[trigger] entries_view(out@)[j] == (
                    self.ids@[j],
                    display_name(self.names@, self.ids@[j]),
                ) by {
                    if j < i {
                        assert(out@[j] == before[j]);
                        assert(entries_view(out@)[j] == entries_view(before)[j]);
                    } else {
                        assert(entries_view(out@)[j] == (out@[j].app_id, out@[j].name@));
                    }
                }
            }
            i = i + 1;
        }
        out
    }

    /// Appends an app to the list (never replacing other entries) and
    /// remembers its name when not blank. A Steam restart is due when the id
    /// is new or `force_restart` is set.
    pub fn add_to_applist(&mut self, app_id: u32, name: &str, force_restart: bool) -> (r:
        AppListAddResult)
        ensures
            (final(self).ids@, r.added) == spec_add_id(old(self).ids@, app_id),
            trim(name@).len() > 0 ==> final(self).names@.dom() == old(self).names@.dom().insert(
                app_id,
            ) && final(self).names@[app_id]@ == trim(name@) && forall|k: u32|
                k != app_id && old(self).names@.contains_key(k) ==> #[trigger] final(self).names@[k]
                    == old(self).names@[k],
            trim(name@).len() == 0 ==> final(self).names@ == old(self).names@,
            r.restarted == (r.added || force_restart),
    {
        let t = crate::text::trim_str(name);
        if !t.as_str().is_empty() {
            self.names.insert(app_id, t);
        }
        let added = !contains_u32(&self.ids, app_id);
        if added {
            self.ids.push(app_id);
        }
        AppListAddResult { added, restarted: added || force_restart }
    }
}

/// The list after adding `app_id`, and whether it was added.
pub open spec fn spec_add_id(ids: Seq<u32>, app_id: u32) -> (Seq<u32>, bool) {
    if ids.contains(app_id) {
        (ids, false)
    } else {
        (ids.push(app_id), true)
    }
}

/// Adding keeps every entry in place and lists the id afterwards; adding
/// the same id again changes nothing and reports it as not added.
pub proof fn law_added_app_is_listed(ids: Seq<u32>, app_id: u32)
    ensures
        spec_add_id(ids, app_id).0.contains(app_id),
        spec_add_id(ids, app_id).0.take(ids.len() as int) == ids,
        spec_add_id(spec_add_id(ids, app_id).0, app_id) == (spec_add_id(ids, app_id).0, false),
        ids.no_duplicates() ==> spec_add_id(ids, app_id).0.no_duplicates(),
{
    if !ids.contains(app_id) {
        assert(ids.push(app_id)[ids.len() as int] == app_id);
        assert(ids.push(app_id).take(ids.len() as int) =~= ids);
    } else {
        assert(ids.take(ids.len() as int) =~= ids);
    }
}

// ---------------------------------------------------------------------------
// Archive passwords
// ---------------------------------------------------------------------------

/// `pw` appended to `list` unless it is already there.
pub open spec fn with_password(list: Seq<Seq<char>>, pw: Seq<char>) -> Seq<Seq<char>> {
    if list.contains(pw) {
        list
    } else {
        list.push(pw)
    }
}

/// The saved passwords appended in order, each unless already listed.
pub open spec fn with_passwords(list: Seq<Seq<char>>, saved: Seq<Seq<char>>) -> Seq<Seq<char>>
    decreases saved.len(),
{
    if saved.len() == 0 {
        list
    } else {
        with_password(with_passwords(list, saved.drop_last()), saved.last())
    }
}

/// The passwords tried on an archive: `cs.rin.ru`, the bundled archive's
/// password, then the saved ones not already listed.
pub open spec fn spec_default_archive_passwords(bundled: Seq<char>, saved: Seq<Seq<char>>) -> Seq<
    Seq<char>,
> {
    with_passwords(seq!["cs.rin.ru"@, bundled], saved)
}

pub fn contains_string(list: &Vec<String>, s: &str) -> (r: bool)
    ensures
        r == crate::steam::strings_view(list@).contains(s@),
{
    let sv = chars_of(s);
    let mut i: usize = 0;
    while i < list.len()
        invariant
            i <= list.len(),
            sv@ == s@,
            forall|j: int| 0 <= j < i ==> list@[j]@ != s@,
        decreases list.len() - i,
    {
        if eq_chars(&chars_of(list[i].as_str()), &sv) {
            assert(crate::steam::strings_view(list@)[i as int] == s@);
            return true;
        }
        i = i + 1;
    }
    proof {
        if crate::steam::strings_view(list@).contains(s@) {
            let j = choose|j: int|
                0 <= j < list@.len() && #[trigger] crate::steam::strings_view(list@)[j] == s@;
            assert(list@[j]@ == s@);
        }
    }
    false
}

/// The passwords to try on an archive.
pub fn default_archive_passwords(bundled_password: &str, saved: &Vec<String>) -> (r: Vec<String>)
    ensures
        crate::steam::strings_view(r@) == spec_default_archive_passwords(
            bundled_password@,
            crate::steam::strings_view(saved@),
        ),
{
    let mut v: Vec<String> = Vec::new();
    v.push(String::from_str("cs.rin.ru"));
    v.push(String::from_str(bundled_password));
    assert(crate::steam::strings_view(v@) =~= seq!["cs.rin.ru"@, bundled_password@]);
    let mut i: usize = 0;
    while i < saved.len()
        invariant
            i <= saved.len(),
            crate::steam::strings_view(v@) == with_passwords(
                seq!["cs.rin.ru"@, bundled_password@],
                crate::steam::strings_view(saved@).take(i as int),
            ),
        decreases saved.len() - i,
    {
        let ghost sv = crate::steam::strings_view(saved@);
        assert(sv.take(i + 1).drop_last() =~= sv.take(i as int));
        assert(sv.take(i + 1).last() == saved@[i as int]@);
        if !contains_string(&v, saved[i].as_str()) {
            let ghost before = v@;
            v.push(saved[i].clone());
            assert(crate::steam::strings_view(v@) =~= crate::steam::strings_view(before).push(
                saved@[i as int]@,
            ));
        }
        i = i + 1;
    }
    assert(crate::steam::strings_view(saved@).take(saved.len() as int) =~= crate::steam::strings_view(
        saved@,
    ));
    v
}

/// Remembers a password that opened an archive: true when it was new and
/// was appended (the empty password is never saved).
pub fn remember_password(saved: &mut Vec<String>, pw: &str) -> (r: bool)
    ensures
        r == (pw@.len() > 0 && !crate::steam::strings_view(old(saved)@).contains(pw@)),
        crate::steam::strings_view(final(saved)@) == if r {
            crate::steam::strings_view(old(saved)@).push(pw@)
        } else {
            crate::steam::strings_view(old(saved)@)
        },
{
    if pw.is_empty() {
        return false;
    }
    if contains_string(saved, pw) {
        return false;
    }
    let ghost before = saved@;
    saved.push(String::from_str(pw));
    assert(crate::steam::strings_view(saved@) =~= crate::steam::strings_view(before).push(pw@));
    true
}

} // verus!
