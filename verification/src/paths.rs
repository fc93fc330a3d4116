//! Windows paths as text: joining a name onto a folder, the parent folder,
//! the last component and its stem.

use vstd::prelude::*;
use crate::text::{chars_of, push_range, string_of, string_of_range};

verus! {

broadcast use vstd::string::group_string_axioms;

/// A path separator (`\` or `/`).
pub open spec fn is_sep(c: char) -> bool {
    c == '\\' || c == '/'
}

/// `name` joined onto `base` with one `\`, unless `base` is empty or
/// already ends with a separator.
pub open spec fn spec_join(base: Seq<char>, name: Seq<char>) -> Seq<char> {
    if base.len() == 0 {
        name
    } else if is_sep(base.last()) {
        base + name
    } else {
        base + seq!['\\'] + name
    }
}

/// Joins `name` onto the folder `base`.
pub fn join(base: &str, name: &str) -> (r: String)
    ensures
        r@ == spec_join(base@, name@),
{
    let mut v = chars_of(base);
    let n = chars_of(name);
    if v.len() > 0 && !(v[v.len() - 1] == '\\' || v[v.len() - 1] == '/') {
        v.push('\\');
    }
    crate::text::extend_chars(&mut v, &n);
    string_of(&v)
}

/// The index of the last separator, if any.
pub open spec fn last_sep(s: Seq<char>) -> Option<int> {
    if exists|i: int| 0 <= i < s.len() && is_sep(s[i]) {
        Some(
            choose|i: int|
                0 <= i < s.len() && is_sep(s[i]) && forall|j: int|
                    i < j < s.len() ==> !is_sep(#[trigger] s[j]),
        )
    } else {
        None
    }
}

/// Some separator means a last one.
proof fn lemma_last_sep(s: Seq<char>, i: int)
    requires
        0 <= i < s.len(),
        is_sep(s[i]),
        forall|j: int| i < j < s.len() ==> !is_sep(#[trigger] s[j]),
    ensures
        last_sep(s) == Some(i),
{
    let w = choose|k: int|
        0 <= k < s.len() && is_sep(s[k]) && forall|j: int| k < j < s.len() ==> !is_sep(#[trigger] s[j]);
    if w < i {
        assert(!is_sep(s[i]));
    } else if w > i {
        assert(!is_sep(s[w]));
    }
}

/// `last_sep` computed.
fn last_sep_exec(v: &Vec<char>) -> (r: Option<usize>)
    ensures
        r matches Some(i) ==> last_sep(v@) == Some(i as int) && i < v.len(),
        r is None ==> last_sep(v@) is None,
{
    let mut k = v.len();
    while k > 0
        invariant
            k <= v.len(),
            forall|j: int| k <= j < v.len() ==> !is_sep(#[trigger] v@[j]),
        decreases k,
    {
        if v[k - 1] == '\\' || v[k - 1] == '/' {
            proof {
                lemma_last_sep(v@, k - 1);
            }
            return Some(k - 1);
        }
        k = k - 1;
    }
    None
}

/// An ASCII letter, as a drive letter.
pub open spec fn is_drive_letter(c: char) -> bool {
    ('a' <= c && c <= 'z') || ('A' <= c && c <= 'Z')
}

/// The length of a path's root: a drive (`C:`) with the separator after
/// it (`C:\`) when there is one, or a leading separator; 0 for a relative
/// path.
pub open spec fn root_len(p: Seq<char>) -> int {
    if p.len() >= 2 && is_drive_letter(p[0]) && p[1] == ':' {
        if p.len() >= 3 && is_sep(p[2]) {
            3
        } else {
            2
        }
    } else if p.len() >= 1 && is_sep(p[0]) {
        1
    } else {
        0
    }
}

/// The last component of a path (everything after the last separator and
/// after the root): empty for a root such as `C:\` or `C:`.
pub open spec fn file_name(p: Seq<char>) -> Seq<char> {
    let r = root_len(p);
    match last_sep(p) {
        Some(i) => p.skip(if i + 1 < r {
            r
        } else {
            i + 1
        }),
        None => p.skip(r),
    }
}

/// The folder a path lies in: everything before the last separator, but
/// never less than the root (the parent of `C:\a` is `C:\`); `None` for a
/// root itself and for a relative name with no separator.
pub open spec fn parent(p: Seq<char>) -> Option<Seq<char>> {
    let r = root_len(p);
    if p.len() <= r {
        None
    } else {
        match last_sep(p) {
            Some(i) => Some(p.take(if i < r {
                r
            } else {
                i
            })),
            None => if r > 0 {
                Some(p.take(r))
            } else {
                None
            },
        }
    }
}

/// `root_len` computed.
fn root_len_exec(v: &Vec<char>) -> (r: usize)
    ensures
        r as int == root_len(v@),
        r <= v.len(),
{
    let n = v.len();
    if n >= 2 && (('a' <= v[0] && v[0] <= 'z') || ('A' <= v[0] && v[0] <= 'Z')) && v[1] == ':' {
        if n >= 3 && (v[2] == '\\' || v[2] == '/') {
            3
        } else {
            2
        }
    } else if n >= 1 && (v[0] == '\\' || v[0] == '/') {
        1
    } else {
        0
    }
}

/// The last component of a path.
pub fn file_name_of(p: &str) -> (r: String)
    ensures
        r@ == file_name(p@),
{
    let v = chars_of(p);
    let r = root_len_exec(&v);
    let start = match last_sep_exec(&v) {
        Some(i) => if i + 1 < r {
            r
        } else {
            i + 1
        },
        None => r,
    };
    assert(v@.subrange(start as int, v@.len() as int) =~= v@.skip(start as int));
    string_of_range(&v, start, v.len())
}

/// The folder a path lies in.
pub fn parent_of(p: &str) -> (r: Option<String>)
    ensures
        r matches Some(s) ==> parent(p@) == Some(s@),
        r is None ==> parent(p@) is None,
{
    let v = chars_of(p);
    let r = root_len_exec(&v);
    if v.len() <= r {
        return None;
    }
    let end = match last_sep_exec(&v) {
        Some(i) => if i < r {
            r
        } else {
            i
        },
        None => {
            if r == 0 {
                return None;
            }
            r
        },
    };
    assert(v@.subrange(0, end as int) =~= v@.take(end as int));
    Some(string_of_range(&v, 0, end))
}

/// The index of the last `.` in a file name, if any.
pub open spec fn last_dot(s: Seq<char>) -> Option<int> {
    if exists|i: int| 0 <= i < s.len() && s[i] == '.' {
        Some(
            choose|i: int|
                0 <= i < s.len() && s[i] == '.' && forall|j: int| i < j < s.len() ==> #[trigger] s[j] != '.',
        )
    } else {
        None
    }
}

/// The file name without its extension (`Path::file_stem`): a leading dot
/// does not start an extension.
pub open spec fn stem(name: Seq<char>) -> Seq<char> {
    match last_dot(name) {
        Some(i) => if i > 0 {
            name.take(i)
        } else {
            name
        },
        None => name,
    }
}

/// The extension of a file name (`Path::extension`).
pub open spec fn extension(name: Seq<char>) -> Option<Seq<char>> {
    match last_dot(name) {
        Some(i) => if i > 0 {
            Some(name.skip(i + 1))
        } else {
            None
        },
        None => None,
    }
}

/// `last_dot` computed.
fn last_dot_exec(v: &Vec<char>) -> (r: Option<usize>)
    ensures
        r matches Some(i) ==> last_dot(v@) == Some(i as int) && i < v.len(),
        r is None ==> last_dot(v@) is None,
{
    let mut k = v.len();
    while k > 0
        invariant
            k <= v.len(),
            forall|j: int| k <= j < v.len() ==> #[trigger] v@[j] != '.',
        decreases k,
    {
        if v[k - 1] == '.' {
            proof {
                let i = k - 1;
                let w = choose|m: int|
                    0 <= m < v@.len() && v@[m] == '.' && forall|j: int|
                        m < j < v@.len() ==> #[trigger] v@[j] != '.';
                assert(0 <= i < v@.len() && v@[i] == '.');
                if w < i {
                    assert(v@[i] != '.');
                } else if w > i {
                    assert(v@[w] != '.');
                }
            }
            return Some(k - 1);
        }
        k = k - 1;
    }
    None
}

/// The file name without its extension.
pub fn stem_of(name: &str) -> (r: String)
    ensures
        r@ == stem(name@),
{
    let v = chars_of(name);
    match last_dot_exec(&v) {
        Some(i) => {
            if i > 0 {
                assert(v@.subrange(0, i as int) =~= v@.take(i as int));
                string_of_range(&v, 0, i)
            } else {
                string_of(&v)
            }
        },
        None => string_of(&v),
    }
}

/// The extension of a file name.
pub fn extension_of(name: &str) -> (r: Option<String>)
    ensures
        r matches Some(s) ==> extension(name@) == Some(s@),
        r is None ==> extension(name@) is None,
{
    let v = chars_of(name);
    match last_dot_exec(&v) {
        Some(i) => {
            if i > 0 {
                let mut e: Vec<char> = Vec::new();
                push_range(&mut e, &v, i + 1, v.len());
                assert(e@ =~= v@.skip(i + 1));
                Some(string_of(&e))
            } else {
                None
            }
        },
        None => None,
    }
}

} // verus!
