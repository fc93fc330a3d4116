//! Building blocks of the text patterns this crate recognises: literal
//! matches (exact, or up to Unicode simple case folding), runs of a
//! character class, and the leftmost position where a pattern matches.

use vstd::prelude::*;
use crate::text::{ascii_lower, ascii_lower_char, is_space, is_space_char};
use crate::unicode::{is_decimal_digit, is_decimal_digit_exec, is_word_char, is_word_char_exec};

verus! {

// ---------------------------------------------------------------------------
// Case-insensitive literals
// ---------------------------------------------------------------------------

/// `c` matches the pattern character `p` up to Unicode simple case folding,
/// for ASCII pattern characters: letters match both cases, `k` also matches
/// KELVIN SIGN and `s` also matches LATIN SMALL LETTER LONG S.
pub open spec fn fold_eq(p: char, c: char) -> bool {
    if ('a' <= p && p <= 'z') || ('A' <= p && p <= 'Z') {
        ascii_lower(c) == ascii_lower(p) || (ascii_lower(p) == 'k' && c == '\u{212a}') || (
        ascii_lower(p) == 's' && c == '\u{17f}')
    } else {
        c == p
    }
}

pub fn fold_eq_exec(p: char, c: char) -> (b: bool)
    ensures
        b == fold_eq(p, c),
{
    if ('a' <= p && p <= 'z') || ('A' <= p && p <= 'Z') {
        let lp = ascii_lower_char(p);
        ascii_lower_char(c) == lp || (lp == 'k' && c == '\u{212a}') || (lp == 's' && c
            == '\u{17f}')
    } else {
        c == p
    }
}

/// `lit` matches `s` at `i` up to case folding.
pub open spec fn ci_at(s: Seq<char>, i: int, lit: Seq<char>) -> bool {
    0 <= i && i + lit.len() <= s.len() && forall|k: int|
        0 <= k < lit.len() ==> fold_eq(lit[k], #[trigger] s[i + k])
}

pub fn ci_at_exec(v: &Vec<char>, i: usize, lit: &Vec<char>) -> (b: bool)
    ensures
        b == ci_at(v@, i as int, lit@),
{
    if i > v.len() || lit.len() > v.len() - i {
        return false;
    }
    let mut k: usize = 0;
    while k < lit.len()
        invariant
            i + lit.len() <= v.len(),
            k <= lit.len(),
            forall|j: int| 0 <= j < k ==> fold_eq(lit@[j], #[trigger] v@[i + j]),
        decreases lit.len() - k,
    {
        if !fold_eq_exec(lit[k], v[i + k]) {
            return false;
        }
        k = k + 1;
    }
    true
}

// ---------------------------------------------------------------------------
// Character classes and runs
// ---------------------------------------------------------------------------

/// A set of characters a run is made of.
pub enum CharClass {
    /// White space (`\s`).
    Space,
    /// Unicode decimal digits (`\d`).
    Decimal,
    /// Every character but the given one (`[^x]`).
    Not(char),
    /// Every character but the three given ones.
    NotAny3(char, char, char),
    /// Every character but `"`, `'` and white space (`[^"'\s]`).
    NotQuoteOrSpace,
}

pub open spec fn in_class(k: CharClass, c: char) -> bool {
    match k {
        CharClass::Space => is_space(c),
        CharClass::Decimal => is_decimal_digit(c),
        CharClass::Not(x) => c != x,
        CharClass::NotAny3(x, y, z) => c != x && c != y && c != z,
        CharClass::NotQuoteOrSpace => c != '"' && c != '\'' && !is_space(c),
    }
}

pub fn in_class_exec(k: &CharClass, c: char) -> (b: bool)
    ensures
        b == in_class(*k, c),
{
    match k {
        CharClass::Space => is_space_char(c),
        CharClass::Decimal => is_decimal_digit_exec(c),
        CharClass::Not(x) => c != *x,
        CharClass::NotAny3(x, y, z) => c != *x && c != *y && c != *z,
        CharClass::NotQuoteOrSpace => c != '"' && c != '\'' && !is_space_char(c),
    }
}

/// `e` ends the run of class `k` that starts at `j`.
pub open spec fn is_span_end(s: Seq<char>, j: int, k: CharClass, e: int) -> bool {
    j <= e <= s.len() && (e == s.len() || !in_class(k, s[e])) && forall|m: int|
        j <= m < e ==> in_class(k, #[trigger] s[m])
}

/// End of the longest run of class `k` starting at `j` (for `0 <= j <= len`).
pub open spec fn span_end(s: Seq<char>, j: int, k: CharClass) -> int {
    choose|e: int| is_span_end(s, j, k, e)
}

/// A run has exactly one end.
pub proof fn lemma_span_end_unique(s: Seq<char>, j: int, k: CharClass, e: int)
    requires
        is_span_end(s, j, k, e),
    ensures
        span_end(s, j, k) == e,
{
    let w = choose|x: int| is_span_end(s, j, k, x);
    assert(is_span_end(s, j, k, w));
    if w < e {
        assert(in_class(k, s[w]));
    } else if w > e {
        assert(in_class(k, s[e]));
    }
}

/// `span_end` computed.
pub fn span_end_exec(v: &Vec<char>, j: usize, k: &CharClass) -> (e: usize)
    requires
        j <= v.len(),
    ensures
        is_span_end(v@, j as int, *k, e as int),
        span_end(v@, j as int, *k) == e,
{
    let mut e = j;
    while e < v.len() && in_class_exec(k, v[e])
        invariant
            j <= e <= v.len(),
            forall|m: int| j <= m < e ==> in_class(*k, #[trigger] v@[m]),
        decreases v.len() - e,
    {
        e = e + 1;
    }
    proof {
        lemma_span_end_unique(v@, j as int, *k, e as int);
    }
    e
}

/// Every run has an end, which `span_end` is.
pub proof fn lemma_span_exists(s: Seq<char>, j: int, k: CharClass)
    requires
        0 <= j <= s.len(),
    ensures
        exists|e: int| #[trigger] is_span_end(s, j, k, e),
        is_span_end(s, j, k, span_end(s, j, k)),
    decreases s.len() - j,
{
    if j == s.len() {
        assert(is_span_end(s, j, k, j));
    } else if !in_class(k, s[j]) {
        assert(is_span_end(s, j, k, j));
    } else {
        lemma_span_exists(s, j + 1, k);
        let e = choose|e: int| #[trigger] is_span_end(s, j + 1, k, e);
        assert(is_span_end(s, j, k, e));
    }
}

// ---------------------------------------------------------------------------
// Word boundaries
// ---------------------------------------------------------------------------

/// `\b` holds at `i` before a word character: `i` starts the text or follows
/// a character that is not a word character.
pub open spec fn word_start(s: Seq<char>, i: int) -> bool {
    i == 0 || !is_word_char(s[i - 1])
}

pub fn word_start_exec(v: &Vec<char>, i: usize) -> (b: bool)
    requires
        i <= v.len(),
    ensures
        b == word_start(v@, i as int),
{
    i == 0 || !is_word_char_exec(v[i - 1])
}

// ---------------------------------------------------------------------------
// Leftmost matches
// ---------------------------------------------------------------------------

/// `i` is the leftmost position in `from..` where matcher `m` succeeds.
pub open spec fn leftmost_at(m: spec_fn(int) -> Option<(int, int)>, from: int, i: int) -> bool {
    from <= i && m(i) is Some && forall|j: int| from <= j < i ==> #[trigger] m(j) is None
}

/// What `m` gives at the leftmost position in `from..` where it succeeds.
pub open spec fn leftmost(m: spec_fn(int) -> Option<(int, int)>, from: int) -> Option<(int, int)> {
    if exists|i: int| leftmost_at(m, from, i) {
        m(choose|i: int| leftmost_at(m, from, i))
    } else {
        None
    }
}

/// The leftmost position is unique.
pub proof fn lemma_leftmost(m: spec_fn(int) -> Option<(int, int)>, from: int, i: int)
    requires
        leftmost_at(m, from, i),
    ensures
        leftmost(m, from) == m(i),
{
    let w = choose|x: int| leftmost_at(m, from, x);
    assert(leftmost_at(m, from, w));
    if w < i {
        assert(m(w) is None);
    } else if w > i {
        assert(m(i) is None);
    }
}

/// No position succeeds.
pub proof fn lemma_leftmost_none(m: spec_fn(int) -> Option<(int, int)>, from: int)
    requires
        forall|j: int| from <= j ==> #[trigger] m(j) is None,
    ensures
        leftmost(m, from) is None,
{
}

} // verus!
