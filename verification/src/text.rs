//! Character-level text toolkit: the string operations that the parsers of
//! this crate are built from, each with a mathematical definition over
//! `Seq<char>` and an executable counterpart proved against it.

use vstd::prelude::*;

verus! {

broadcast use vstd::string::group_string_axioms;

// ---------------------------------------------------------------------------
// Character classes
// ---------------------------------------------------------------------------

/// Unicode `White_Space`: what `char::is_whitespace`, `str::trim` and the
/// regular-expression class `\s` treat as space.
pub open spec fn is_space(c: char) -> bool {
    let u = c as u32;
    ||| (0x9 <= u && u <= 0xd)
    ||| u == 0x20
    ||| u == 0x85
    ||| u == 0xa0
    ||| u == 0x1680
    ||| (0x2000 <= u && u <= 0x200a)
    ||| u == 0x2028
    ||| u == 0x2029
    ||| u == 0x202f
    ||| u == 0x205f
    ||| u == 0x3000
}

pub fn is_space_char(c: char) -> (b: bool)
    ensures
        b == is_space(c),
{
    let u = c as u32;
    (0x9 <= u && u <= 0xd) || u == 0x20 || u == 0x85 || u == 0xa0 || u == 0x1680 || (0x2000 <= u
        && u <= 0x200a) || u == 0x2028 || u == 0x2029 || u == 0x202f || u == 0x205f || u == 0x3000
}

/// ASCII digit `0`..=`9`.
pub open spec fn is_ascii_digit(c: char) -> bool {
    '0' <= c && c <= '9'
}

/// Lower-case mapping of ASCII letters; every other character is unchanged.
pub open spec fn ascii_lower(c: char) -> char {
    if 'A' <= c && c <= 'Z' {
        ((c as u32) + 32) as char
    } else {
        c
    }
}

pub fn ascii_lower_char(c: char) -> (r: char)
    ensures
        r == ascii_lower(c),
{
    if 'A' <= c && c <= 'Z' {
        let u = (c as u32) + 32;
        assert(0x61 <= u <= 0x7a);
        char_from_ascii_code(u)
    } else {
        c
    }
}

/// The character with the given code point, for code points of ASCII letters.
fn char_from_ascii_code(u: u32) -> (c: char)
    requires
        0x61 <= u <= 0x7a,
    ensures
        c == u as char,
{
    let b = u as u8;
    let c = b as char;
    assert(c == u as char);
    c
}

/// `ascii_lower` applied to every character.
pub open spec fn ascii_lower_seq(s: Seq<char>) -> Seq<char> {
    Seq::new(s.len(), |i: int| ascii_lower(s[i]))
}

/// Equality up to ASCII case (`str::eq_ignore_ascii_case`).
pub open spec fn eq_ignore_ascii_case(a: Seq<char>, b: Seq<char>) -> bool {
    ascii_lower_seq(a) == ascii_lower_seq(b)
}

pub fn eq_ignore_ascii_case_chars(a: &Vec<char>, b: &Vec<char>) -> (r: bool)
    ensures
        r == eq_ignore_ascii_case(a@, b@),
{
    if a.len() != b.len() {
        assert(ascii_lower_seq(a@).len() != ascii_lower_seq(b@).len());
        return false;
    }
    let mut i: usize = 0;
    while i < a.len()
        invariant
            a.len() == b.len(),
            i <= a.len(),
            forall|j: int| 0 <= j < i ==> ascii_lower(a@[j]) == ascii_lower(b@[j]),
        decreases a.len() - i,
    {
        if ascii_lower_char(a[i]) != ascii_lower_char(b[i]) {
            assert(ascii_lower_seq(a@)[i as int] != ascii_lower_seq(b@)[i as int]);
            return false;
        }
        i = i + 1;
    }
    assert(ascii_lower_seq(a@) =~= ascii_lower_seq(b@));
    true
}

pub fn eq_ignore_ascii_case_str(a: &str, b: &str) -> (r: bool)
    ensures
        r == eq_ignore_ascii_case(a@, b@),
{
    let av = chars_of(a);
    let bv = chars_of(b);
    eq_ignore_ascii_case_chars(&av, &bv)
}

// ---------------------------------------------------------------------------
// Conversions between strings and character vectors
// ---------------------------------------------------------------------------

/// The characters of a string slice, in order.
pub fn chars_of(s: &str) -> (v: Vec<char>)
    ensures
        v@ == s@,
{
    let mut v: Vec<char> = Vec::new();
    for c in it: s.chars()
        invariant
            v@ == it.seq().take(it.index() as int),
    {
        v.push(c);
    }
    v
}

/// Appends one character with std's `String::push`; trusted to leave the
/// string as before with `c` added at its end.
#[verifier::external_body]
fn push_char(s: &mut String, c: char)
    ensures
        final(s)@ == old(s)@.push(c),
{
    s.push(c);
}

/// The string made of `v[lo..hi]`.
pub fn string_of_range(v: &Vec<char>, lo: usize, hi: usize) -> (s: String)
    requires
        lo <= hi <= v.len(),
    ensures
        s@ == v@.subrange(lo as int, hi as int),
{
    let mut s = String::new();
    let mut i: usize = lo;
    while i < hi
        invariant
            lo <= i <= hi <= v.len(),
            s@ == v@.subrange(lo as int, i as int),
        decreases hi - i,
    {
        push_char(&mut s, v[i]);
        i = i + 1;
        assert(v@.subrange(lo as int, i as int) =~= v@.subrange(lo as int, i - 1).push(
            v@[i - 1],
        ));
    }
    s
}

/// The string made of all of `v`.
pub fn string_of(v: &Vec<char>) -> (s: String)
    ensures
        s@ == v@,
{
    let s = string_of_range(v, 0, v.len());
    assert(v@.subrange(0, v.len() as int) =~= v@);
    s
}

/// Appends the characters of `t` to `v`.
pub fn extend_chars(v: &mut Vec<char>, t: &Vec<char>)
    ensures
        final(v)@ == old(v)@ + t@,
{
    let mut i: usize = 0;
    while i < t.len()
        invariant
            i <= t.len(),
            v@ == old(v)@ + t@.take(i as int),
        decreases t.len() - i,
    {
        v.push(t[i]);
        i = i + 1;
        assert(old(v)@ + t@.take(i as int) =~= (old(v)@ + t@.take(i - 1)).push(t@[i - 1]));
    }
    assert(t@.take(t.len() as int) =~= t@);
}

// ---------------------------------------------------------------------------
// Trimming
// ---------------------------------------------------------------------------

/// Leading white space removed (`str::trim_start`).
pub open spec fn trim_start(s: Seq<char>) -> Seq<char>
    decreases s.len(),
{
    if s.len() > 0 && is_space(s[0]) {
        trim_start(s.drop_first())
    } else {
        s
    }
}

/// Trailing white space removed (`str::trim_end`).
pub open spec fn trim_end(s: Seq<char>) -> Seq<char>
    decreases s.len(),
{
    if s.len() > 0 && is_space(s.last()) {
        trim_end(s.drop_last())
    } else {
        s
    }
}

/// White space removed at both ends (`str::trim`).
pub open spec fn trim(s: Seq<char>) -> Seq<char> {
    trim_end(trim_start(s))
}

/// Bounds of `v[lo..hi]` with its trailing white space removed.
pub fn trim_end_range(v: &Vec<char>, lo: usize, hi: usize) -> (b: usize)
    requires
        lo <= hi <= v.len(),
    ensures
        lo <= b <= hi,
        v@.subrange(lo as int, b as int) == trim_end(v@.subrange(lo as int, hi as int)),
{
    let mut b = hi;
    while b > lo && is_space_char(v[b - 1])
        invariant
            lo <= b <= hi <= v.len(),
            trim_end(v@.subrange(lo as int, hi as int)) == trim_end(
                v@.subrange(lo as int, b as int),
            ),
        decreases b,
    {
        assert(v@.subrange(lo as int, b as int).drop_last() =~= v@.subrange(
            lo as int,
            b - 1,
        ));
        b = b - 1;
    }
    b
}

/// Bounds of `v[lo..hi]` with its leading white space removed.
pub fn trim_start_range(v: &Vec<char>, lo: usize, hi: usize) -> (a: usize)
    requires
        lo <= hi <= v.len(),
    ensures
        lo <= a <= hi,
        v@.subrange(a as int, hi as int) == trim_start(v@.subrange(lo as int, hi as int)),
{
    let mut a = lo;
    while a < hi && is_space_char(v[a])
        invariant
            lo <= a <= hi <= v.len(),
            trim_start(v@.subrange(lo as int, hi as int)) == trim_start(
                v@.subrange(a as int, hi as int),
            ),
        decreases hi - a,
    {
        assert(v@.subrange(a as int, hi as int).drop_first() =~= v@.subrange(
            a + 1,
            hi as int,
        ));
        a = a + 1;
    }
    a
}

/// Bounds of `v[lo..hi]` trimmed at both ends.
pub fn trim_range(v: &Vec<char>, lo: usize, hi: usize) -> (r: (usize, usize))
    requires
        lo <= hi <= v.len(),
    ensures
        lo <= r.0 <= r.1 <= hi,
        v@.subrange(r.0 as int, r.1 as int) == trim(v@.subrange(lo as int, hi as int)),
{
    let a = trim_start_range(v, lo, hi);
    let b = trim_end_range(v, a, hi);
    (a, b)
}

/// `str::trim` producing an owned string.
pub fn trim_str(s: &str) -> (r: String)
    ensures
        r@ == trim(s@),
{
    let v = chars_of(s);
    let (a, b) = trim_range(&v, 0, v.len());
    assert(v@.subrange(0, v.len() as int) =~= v@);
    string_of_range(&v, a, b)
}

// ---------------------------------------------------------------------------
// Substrings
// ---------------------------------------------------------------------------

/// Character-wise equality.
pub fn eq_chars(a: &Vec<char>, b: &Vec<char>) -> (r: bool)
    ensures
        r == (a@ == b@),
{
    if a.len() != b.len() {
        return false;
    }
    let mut i: usize = 0;
    while i < a.len()
        invariant
            a.len() == b.len(),
            i <= a.len(),
            forall|j: int| 0 <= j < i ==> a@[j] == b@[j],
        decreases a.len() - i,
    {
        if a[i] != b[i] {
            return false;
        }
        i = i + 1;
    }
    assert(a@ =~= b@);
    true
}

/// `pat` occurs in `s` starting at index `i`.
pub open spec fn occurs_at(s: Seq<char>, pat: Seq<char>, i: int) -> bool {
    0 <= i && i + pat.len() <= s.len() && s.subrange(i, i + pat.len()) == pat
}

/// `str::contains` with a string pattern.
pub open spec fn contains(s: Seq<char>, pat: Seq<char>) -> bool {
    exists|i: int| occurs_at(s, pat, i)
}

/// `str::starts_with` with a string pattern.
pub open spec fn starts_with(s: Seq<char>, pat: Seq<char>) -> bool {
    occurs_at(s, pat, 0)
}

/// `str::ends_with` with a string pattern.
pub open spec fn ends_with(s: Seq<char>, pat: Seq<char>) -> bool {
    occurs_at(s, pat, s.len() - pat.len())
}

/// Whether `pat` occurs in `v` at index `i` (bounds checked).
pub fn occurs_at_exec(v: &Vec<char>, pat: &Vec<char>, i: usize) -> (r: bool)
    ensures
        r == occurs_at(v@, pat@, i as int),
{
    if i > v.len() || pat.len() > v.len() - i {
        return false;
    }
    let mut k: usize = 0;
    while k < pat.len()
        invariant
            i + pat.len() <= v.len(),
            k <= pat.len(),
            forall|j: int| 0 <= j < k ==> v@[i + j] == pat@[j],
        decreases pat.len() - k,
    {
        if v[i + k] != pat[k] {
            assert(v@.subrange(i as int, i + pat.len())[k as int] != pat@[k as int]);
            return false;
        }
        k = k + 1;
    }
    assert(v@.subrange(i as int, i + pat.len()) =~= pat@);
    true
}

/// `pat` occurs at `i >= from` and at no index in `from..i`.
pub open spec fn first_occurrence(s: Seq<char>, pat: Seq<char>, from: int, i: int) -> bool {
    from <= i && occurs_at(s, pat, i) && (forall|j: int| from <= j < i ==> !occurs_at(s, pat, j))
}

/// Smallest index at or after `from` where `pat` occurs, if any
/// (`str::find` on the suffix starting at `from`).
pub open spec fn find_from(s: Seq<char>, pat: Seq<char>, from: int) -> Option<int> {
    if exists|i: int| first_occurrence(s, pat, from, i) {
        Some(choose|i: int| first_occurrence(s, pat, from, i))
    } else {
        None
    }
}

/// The first occurrence is what `find_from` returns.
pub proof fn lemma_find_from_min(s: Seq<char>, pat: Seq<char>, from: int, i: int)
    requires
        first_occurrence(s, pat, from, i),
    ensures
        find_from(s, pat, from) == Some(i),
{
    let w = choose|k: int| first_occurrence(s, pat, from, k);
    if w < i {
        assert(!occurs_at(s, pat, w));
    } else if w > i {
        assert(!occurs_at(s, pat, i));
    }
}

/// No occurrence at or after `from` means `find_from` is `None`.
pub proof fn lemma_find_from_none(s: Seq<char>, pat: Seq<char>, from: int)
    requires
        forall|j: int| from <= j ==> !occurs_at(s, pat, j),
    ensures
        find_from(s, pat, from) is None,
{
}

/// `find_from` computed: the first index `>= from` where `pat` occurs.
pub fn find_from_exec(v: &Vec<char>, pat: &Vec<char>, from: usize) -> (r: Option<usize>)
    ensures
        r matches Some(i) ==> find_from(v@, pat@, from as int) == Some(i as int) && from <= i
            && occurs_at(v@, pat@, i as int),
        r is None ==> find_from(v@, pat@, from as int) is None,
{
    if from > v.len() {
        assert forall|j: int| from <= j implies !occurs_at(v@, pat@, j) by {}
        proof {
            lemma_find_from_none(v@, pat@, from as int);
        }
        return None;
    }
    let mut i = from;
    while i < v.len()
        invariant
            from <= i <= v.len(),
            forall|j: int| from <= j < i ==> !occurs_at(v@, pat@, j),
        decreases v.len() - i,
    {
        if occurs_at_exec(v, pat, i) {
            proof {
                lemma_find_from_min(v@, pat@, from as int, i as int);
            }
            return Some(i);
        }
        i = i + 1;
    }
    if occurs_at_exec(v, pat, i) {
        proof {
            lemma_find_from_min(v@, pat@, from as int, i as int);
        }
        return Some(i);
    }
    assert forall|j: int| from <= j implies !occurs_at(v@, pat@, j) by {
        if j > i {
            assert(j + pat@.len() > v@.len());
        }
    }
    proof {
        lemma_find_from_none(v@, pat@, from as int);
    }
    None
}

/// `str::contains` computed.
pub fn contains_exec(v: &Vec<char>, pat: &Vec<char>) -> (r: bool)
    ensures
        r == contains(v@, pat@),
{
    match find_from_exec(v, pat, 0) {
        Some(i) => {
            assert(occurs_at(v@, pat@, i as int));
            true
        },
        None => {
            proof {
                if contains(v@, pat@) {
                    let i = choose|i: int| occurs_at(v@, pat@, i);
                    lemma_first_exists(v@, pat@, 0, i);
                }
            }
            false
        },
    }
}

/// `str::starts_with` computed.
pub fn starts_with_exec(v: &Vec<char>, pat: &Vec<char>) -> (r: bool)
    ensures
        r == starts_with(v@, pat@),
{
    occurs_at_exec(v, pat, 0)
}

/// `str::ends_with` computed.
pub fn ends_with_exec(v: &Vec<char>, pat: &Vec<char>) -> (r: bool)
    ensures
        r == ends_with(v@, pat@),
{
    if pat.len() > v.len() {
        return false;
    }
    occurs_at_exec(v, pat, v.len() - pat.len())
}

// ---------------------------------------------------------------------------
// Characters
// ---------------------------------------------------------------------------

/// `c` occurs at `i >= from` and nowhere in `from..i`.
pub open spec fn first_char_at(s: Seq<char>, c: char, from: int, i: int) -> bool {
    from <= i < s.len() && s[i] == c && (forall|j: int| from <= j < i ==> s[j] != c)
}

/// Index of the first `c` at or after `from`.
pub open spec fn find_char_from(s: Seq<char>, c: char, from: int) -> Option<int> {
    if exists|i: int| first_char_at(s, c, from, i) {
        Some(choose|i: int| first_char_at(s, c, from, i))
    } else {
        None
    }
}

/// `find_char_from` computed.
pub fn find_char_exec(v: &Vec<char>, c: char, from: usize) -> (r: Option<usize>)
    ensures
        r matches Some(i) ==> first_char_at(v@, c, from as int, i as int) && find_char_from(
            v@,
            c,
            from as int,
        ) == Some(i as int),
        r is None ==> (forall|j: int| from <= j < v@.len() ==> v@[j] != c) && find_char_from(
            v@,
            c,
            from as int,
        ) is None,
{
    let mut i = from;
    while i < v.len()
        invariant
            from <= i,
            forall|j: int| from <= j < i && j < v@.len() ==> v@[j] != c,
        decreases v.len() - i,
    {
        if v[i] == c {
            proof {
                let w = choose|k: int| first_char_at(v@, c, from as int, k);
                assert(first_char_at(v@, c, from as int, i as int));
                if w < i {
                    assert(v@[w] != c);
                } else if w > i {
                    assert(v@[i as int] != c);
                }
            }
            return Some(i);
        }
        i = i + 1;
    }
    None
}

// ---------------------------------------------------------------------------
// Lines
// ---------------------------------------------------------------------------

/// One trailing carriage return removed.
pub open spec fn strip_cr(s: Seq<char>) -> Seq<char> {
    if s.len() > 0 && s.last() == '\r' {
        s.drop_last()
    } else {
        s
    }
}

/// The lines of `s[start..]`, as `str::lines` splits them: at `\n`, with a
/// `\r` just before it removed; no empty last line after a final `\n`.
pub open spec fn lines_from(s: Seq<char>, start: int) -> Seq<Seq<char>>
    decreases s.len() - start,
{
    if start < 0 || start >= s.len() {
        Seq::empty()
    } else {
        match find_char_from(s, '\n', start) {
            Some(i) => seq![strip_cr(s.subrange(start, i))] + lines_from(s, i + 1),
            None => seq![s.subrange(start, s.len() as int)],
        }
    }
}

/// `str::lines`.
pub open spec fn lines(s: Seq<char>) -> Seq<Seq<char>> {
    lines_from(s, 0)
}

/// The lines of `v`, each as a range `[a, b)` into `v`.
pub fn line_ranges(v: &Vec<char>) -> (r: Vec<(usize, usize)>)
    ensures
        r@.len() == lines(v@).len(),
        forall|k: int|
            #![trigger r@[k]]
            0 <= k < r@.len() ==> r@[k].0 <= r@[k].1 <= v@.len() && lines(v@)[k] == v@.subrange(
                r@[k].0 as int,
                r@[k].1 as int,
            ),
{
    let mut r: Vec<(usize, usize)> = Vec::new();
    let mut pos: usize = 0;
    let ghost mut done: Seq<Seq<char>> = Seq::empty();
    while pos < v.len()
        invariant
            pos <= v.len(),
            done + lines_from(v@, pos as int) == lines(v@),
            r@.len() == done.len(),
            forall|k: int|
                #![trigger r@[k]]
                0 <= k < r@.len() ==> r@[k].0 <= r@[k].1 <= v@.len() && done[k] == v@.subrange(
                    r@[k].0 as int,
                    r@[k].1 as int,
                ),
        decreases v.len() - pos,
    {
        match find_char_exec(v, '\n', pos) {
            Some(i) => {
                let end = if i > pos && v[i - 1] == '\r' {
                    i - 1
                } else {
                    i
                };
                assert(v@.subrange(pos as int, end as int) == strip_cr(
                    v@.subrange(pos as int, i as int),
                )) by {
                    if i > pos && v@[i - 1] == '\r' {
                        assert(v@.subrange(pos as int, i as int).drop_last() =~= v@.subrange(
                            pos as int,
                            i - 1,
                        ));
                    }
                }
                proof {
                    done = done.push(strip_cr(v@.subrange(pos as int, i as int)));
                    assert(done + lines_from(v@, i + 1) =~= (done.drop_last() + lines_from(
                        v@,
                        pos as int,
                    )));
                }
                let ghost old_r = r@;
                r.push((pos, end));
                assert forall|k: int| 0 <= k < r@.len() implies r@[k].0 <= r@[k].1 <= v@.len()
                    && done[k] == v@.subrange(r@[k].0 as int, r@[k].1 as int) by {
                    if k < old_r.len() {
                        assert(r@[k] == old_r[k]);
                    } else {
                        assert(r@[k] == (pos, end));
                    }
                }
                pos = i + 1;
            },
            None => {
                proof {
                    done = done.push(v@.subrange(pos as int, v@.len() as int));
                    assert(lines_from(v@, v@.len() as int) =~= Seq::<Seq<char>>::empty());
                    assert(done + lines_from(v@, v@.len() as int) =~= (done.drop_last()
                        + lines_from(v@, pos as int)));
                }
                let ghost old_r = r@;
                r.push((pos, v.len()));
                assert forall|k: int| 0 <= k < r@.len() implies r@[k].0 <= r@[k].1 <= v@.len()
                    && done[k] == v@.subrange(r@[k].0 as int, r@[k].1 as int) by {
                    if k < old_r.len() {
                        assert(r@[k] == old_r[k]);
                    } else {
                        assert(r@[k] == (pos, v.len()));
                    }
                }
                pos = v.len();
            },
        }
    }
    assert(lines_from(v@, pos as int) =~= Seq::<Seq<char>>::empty());
    assert(done =~= lines(v@));
    assert forall|k: int| 0 <= k < r@.len() implies #[trigger] r@[k].0 <= r@[k].1 <= v@.len()
        && lines(v@)[k] == v@.subrange(r@[k].0 as int, r@[k].1 as int) by {
        assert(done[k] == lines(v@)[k]);
    }
    r
}

// ---------------------------------------------------------------------------
// Decimal numbers
// ---------------------------------------------------------------------------

/// All characters are ASCII digits.
pub open spec fn all_ascii_digits(s: Seq<char>) -> bool {
    forall|i: int| 0 <= i < s.len() ==> is_ascii_digit(#[trigger] s[i])
}

/// Value of a string of ASCII digits, most significant first.
pub open spec fn digits_value(s: Seq<char>) -> nat
    decreases s.len(),
{
    if s.len() == 0 {
        0
    } else {
        digits_value(s.drop_last()) * 10 + ((s.last() as u32) - ('0' as u32)) as nat
    }
}

/// `str::parse` for an unsigned integer type whose largest value is `max`:
/// an optional `+`, then one or more ASCII digits, the value at most `max`.
pub open spec fn parse_uint(s: Seq<char>, max: nat) -> Option<nat> {
    let d = if s.len() > 0 && s[0] == '+' {
        s.drop_first()
    } else {
        s
    };
    if d.len() > 0 && all_ascii_digits(d) && digits_value(d) <= max {
        Some(digits_value(d))
    } else {
        None
    }
}

/// The value of a digit string is at least the value of any of its prefixes.
pub proof fn lemma_digits_value_prefix(s: Seq<char>, k: int)
    requires
        0 <= k <= s.len(),
        all_ascii_digits(s),
    ensures
        digits_value(s.take(k)) <= digits_value(s),
    decreases s.len(),
{
    if k < s.len() {
        assert(all_ascii_digits(s.drop_last()));
        assert(s.drop_last().take(k) =~= s.take(k));
        lemma_digits_value_prefix(s.drop_last(), k);
    } else {
        assert(s.take(k) =~= s);
    }
}

/// `str::parse::<u64>` of `v[lo..hi]`.
pub fn parse_u64_range(v: &Vec<char>, lo: usize, hi: usize) -> (r: Option<u64>)
    requires
        lo <= hi <= v.len(),
    ensures
        r matches Some(n) ==> parse_uint(v@.subrange(lo as int, hi as int), u64::MAX as nat)
            == Some(n as nat),
        r is None ==> parse_uint(v@.subrange(lo as int, hi as int), u64::MAX as nat) is None,
{
    let ghost s = v@.subrange(lo as int, hi as int);
    let mut a = lo;
    if hi > lo && v[lo] == '+' {
        a = lo + 1;
    }
    let ghost d = v@.subrange(a as int, hi as int);
    assert(d =~= (if s.len() > 0 && s[0] == '+' {
        s.drop_first()
    } else {
        s
    }));
    if a == hi {
        return None;
    }
    let mut acc: u64 = 0;
    let mut i = a;
    while i < hi
        invariant
            lo <= a <= i <= hi <= v.len(),
            d == v@.subrange(a as int, hi as int),
            d == (if v@.subrange(lo as int, hi as int).len() > 0 && v@.subrange(
                lo as int,
                hi as int,
            )[0] == '+' {
                v@.subrange(lo as int, hi as int).drop_first()
            } else {
                v@.subrange(lo as int, hi as int)
            }),
            all_ascii_digits(v@.subrange(a as int, i as int)),
            acc as nat == digits_value(v@.subrange(a as int, i as int)),
        decreases hi - i,
    {
        let c = v[i];
        if !('0' <= c && c <= '9') {
            assert(!is_ascii_digit(d[i - a]));
            return None;
        }
        let digit = (c as u32 - '0' as u32) as u64;
        assert(v@.subrange(a as int, i + 1).drop_last() =~= v@.subrange(a as int, i as int));
        assert(all_ascii_digits(v@.subrange(a as int, i + 1)));
        assert(v@.subrange(a as int, i + 1).last() == c);
        assert(digits_value(v@.subrange(a as int, i + 1)) == acc * 10 + digit);
        if acc > (u64::MAX - digit) / 10 {
            proof {
                assert(acc * 10 + digit > u64::MAX) by (nonlinear_arith)
                    requires
                        acc > (u64::MAX - digit) / 10,
                        digit <= 9,
                ;
                if all_ascii_digits(d) {
                    assert(d.take(i + 1 - a) =~= v@.subrange(a as int, i + 1));
                    lemma_digits_value_prefix(d, i + 1 - a);
                }
            }
            return None;
        }
        acc = acc * 10 + digit;
        i = i + 1;
    }
    Some(acc)
}

/// `str::parse::<u64>`.
pub fn parse_u64(s: &str) -> (r: Option<u64>)
    ensures
        r matches Some(n) ==> parse_uint(s@, u64::MAX as nat) == Some(n as nat),
        r is None ==> parse_uint(s@, u64::MAX as nat) is None,
{
    let v = chars_of(s);
    assert(v@.subrange(0, v@.len() as int) =~= v@);
    parse_u64_range(&v, 0, v.len())
}

/// `str::parse::<u32>` of `v[lo..hi]`.
pub fn parse_u32_range(v: &Vec<char>, lo: usize, hi: usize) -> (r: Option<u32>)
    requires
        lo <= hi <= v.len(),
    ensures
        r matches Some(n) ==> parse_uint(v@.subrange(lo as int, hi as int), u32::MAX as nat)
            == Some(n as nat),
        r is None ==> parse_uint(v@.subrange(lo as int, hi as int), u32::MAX as nat) is None,
{
    match parse_u64_range(v, lo, hi) {
        Some(n) => {
            if n <= u32::MAX as u64 {
                Some(n as u32)
            } else {
                None
            }
        },
        None => None,
    }
}

/// `str::parse::<u32>`.
pub fn parse_u32(s: &str) -> (r: Option<u32>)
    ensures
        r matches Some(n) ==> parse_uint(s@, u32::MAX as nat) == Some(n as nat),
        r is None ==> parse_uint(s@, u32::MAX as nat) is None,
{
    let v = chars_of(s);
    assert(v@.subrange(0, v@.len() as int) =~= v@);
    parse_u32_range(&v, 0, v.len())
}

/// The ASCII digit for `d < 10`.
pub open spec fn digit_char(d: nat) -> char {
    ((d + 48) as u8) as char
}

/// Decimal representation without leading zeros (`u64::to_string`).
pub open spec fn decimal(n: nat) -> Seq<char>
    decreases n,
{
    if n < 10 {
        seq![digit_char(n)]
    } else {
        decimal(n / 10).push(digit_char(n % 10))
    }
}

fn digit_to_char(d: u64) -> (c: char)
    requires
        d < 10,
    ensures
        c == digit_char(d as nat),
        is_ascii_digit(c),
        (c as u32) - ('0' as u32) == d,
{
    let b = (d + 48) as u8;
    b as char
}

/// `decimal` computed, appended to `out`.
pub fn push_decimal(out: &mut Vec<char>, n: u64)
    ensures
        final(out)@ == old(out)@ + decimal(n as nat),
    decreases n,
{
    if n < 10 {
        out.push(digit_to_char(n));
        assert(old(out)@.push(digit_char(n as nat)) =~= old(out)@ + seq![digit_char(n as nat)]);
    } else {
        push_decimal(out, n / 10);
        out.push(digit_to_char(n % 10));
        assert(old(out)@ + decimal(n as nat) =~= (old(out)@ + decimal((n / 10) as nat)).push(
            digit_char((n % 10) as nat),
        ));
    }
}

/// `decimal` as an owned string.
pub fn decimal_string(n: u64) -> (s: String)
    ensures
        s@ == decimal(n as nat),
{
    let mut v: Vec<char> = Vec::new();
    push_decimal(&mut v, n);
    assert(v@ =~= decimal(n as nat));
    string_of(&v)
}

/// A decimal representation is made of ASCII digits and denotes its number.
pub proof fn lemma_decimal_digits(n: nat)
    ensures
        decimal(n).len() > 0,
        all_ascii_digits(decimal(n)),
        digits_value(decimal(n)) == n,
        decimal(n)[0] != '+',
    decreases n,
{
    let d = digit_char(n % 10);
    assert((d as u32) - ('0' as u32) == n % 10);
    if n >= 10 {
        lemma_decimal_digits(n / 10);
        assert(decimal(n).drop_last() =~= decimal(n / 10));
        assert(decimal(n)[0] == decimal(n / 10)[0]);
        assert(decimal(n).last() == d);
        assert(digits_value(decimal(n)) == digits_value(decimal(n / 10)) * 10 + ((d as u32) - (
        '0' as u32)) as nat);
        assert((n / 10) * 10 + n % 10 == n) by (nonlinear_arith);
    } else {
        assert(decimal(n).drop_last() =~= Seq::<char>::empty());
        assert(decimal(n).last() == d);
        assert(digits_value(Seq::<char>::empty()) == 0);
    }
}

/// Reading back a written number gives the number.
pub proof fn lemma_parse_decimal(n: nat, max: nat)
    requires
        n <= max,
    ensures
        parse_uint(decimal(n), max) == Some(n),
{
    lemma_decimal_digits(n);
}

// ---------------------------------------------------------------------------
// Replacing
// ---------------------------------------------------------------------------

/// `str::replace(from, to)` for a non-empty pattern: every non-overlapping
/// occurrence, leftmost first, replaced.
pub open spec fn replace_all(s: Seq<char>, from: Seq<char>, to: Seq<char>) -> Seq<char>
    decreases s.len(),
{
    if from.len() == 0 {
        s
    } else {
        match find_from(s, from, 0) {
            Some(i) => s.take(i) + to + replace_all(s.skip(i + from.len()), from, to),
            None => s,
        }
    }
}

/// Occurrences in a suffix are occurrences in the whole, shifted.
pub proof fn lemma_occurs_skip(s: Seq<char>, pat: Seq<char>, p: int, j: int)
    requires
        0 <= p <= s.len(),
        0 <= j,
    ensures
        occurs_at(s.skip(p), pat, j) == occurs_at(s, pat, p + j),
{
    if occurs_at(s, pat, p + j) {
        assert(s.skip(p).subrange(j, j + pat.len()) =~= s.subrange(p + j, p + j + pat.len()));
    }
    if occurs_at(s.skip(p), pat, j) {
        assert(s.skip(p).subrange(j, j + pat.len()) =~= s.subrange(p + j, p + j + pat.len()));
    }
}

/// `find_from` on a suffix is `find_from` on the whole, shifted.
pub proof fn lemma_find_from_skip(s: Seq<char>, pat: Seq<char>, p: int)
    requires
        0 <= p <= s.len(),
    ensures
        find_from(s, pat, p) matches Some(i) ==> find_from(s.skip(p), pat, 0) == Some(i - p),
        find_from(s, pat, p) is None ==> find_from(s.skip(p), pat, 0) is None,
{
    match find_from(s, pat, p) {
        Some(i) => {
            assert(first_occurrence(s, pat, p, i));
            lemma_occurs_skip(s, pat, p, i - p);
            assert forall|j: int| 0 <= j < i - p implies !occurs_at(s.skip(p), pat, j) by {
                lemma_occurs_skip(s, pat, p, j);
            }
            lemma_find_from_min(s.skip(p), pat, 0, i - p);
        },
        None => {
            assert forall|j: int| 0 <= j implies !occurs_at(s.skip(p), pat, j) by {
                lemma_occurs_skip(s, pat, p, j);
                if occurs_at(s, pat, p + j) {
                    let k = choose|k: int| p <= k && occurs_at(s, pat, k) && forall|m: int|
                        p <= m < k ==> !occurs_at(s, pat, m);
                    lemma_first_exists(s, pat, p, p + j);
                }
            }
        },
    }
}

/// Some occurrence at or after `from` implies a first one.
pub proof fn lemma_first_exists(s: Seq<char>, pat: Seq<char>, from: int, i: int)
    requires
        from <= i,
        occurs_at(s, pat, i),
    ensures
        find_from(s, pat, from) is Some,
    decreases i - from,
{
    if forall|j: int| from <= j < i ==> !occurs_at(s, pat, j) {
        assert(first_occurrence(s, pat, from, i));
    } else {
        let j = choose|j: int| from <= j < i && occurs_at(s, pat, j);
        lemma_first_exists(s, pat, from, j);
    }
}

/// Appends `v[a..b]` to `out`.
pub fn push_range(out: &mut Vec<char>, v: &Vec<char>, a: usize, b: usize)
    requires
        a <= b <= v.len(),
    ensures
        final(out)@ == old(out)@ + v@.subrange(a as int, b as int),
{
    let mut k = a;
    while k < b
        invariant
            a <= k <= b <= v.len(),
            out@ == old(out)@ + v@.subrange(a as int, k as int),
        decreases b - k,
    {
        out.push(v[k]);
        k = k + 1;
        assert(old(out)@ + v@.subrange(a as int, k as int) =~= (old(out)@ + v@.subrange(
            a as int,
            k - 1,
        )).push(v@[k - 1]));
    }
}

/// `replace_all` computed.
pub fn replace_all_exec(v: &Vec<char>, from: &Vec<char>, to: &Vec<char>) -> (r: Vec<char>)
    requires
        from@.len() > 0,
    ensures
        r@ == replace_all(v@, from@, to@),
{
    let mut out: Vec<char> = Vec::new();
    let mut pos: usize = 0;
    assert(v@.skip(0) =~= v@);
    loop
        invariant
            from@.len() > 0,
            pos <= v.len(),
            replace_all(v@, from@, to@) == out@ + replace_all(v@.skip(pos as int), from@, to@),
        decreases v.len() - pos,
    {
        let ghost rest = v@.skip(pos as int);
        proof {
            lemma_find_from_skip(v@, from@, pos as int);
        }
        match find_from_exec(v, from, pos) {
            Some(i) => {
                let ghost old_out = out@;
                push_range(&mut out, v, pos, i);
                extend_chars(&mut out, to);
                proof {
                    assert(find_from(rest, from@, 0) == Some(i - pos));
                    assert(rest.take(i - pos) =~= v@.subrange(pos as int, i as int));
                    assert(rest.skip(i - pos + from@.len()) =~= v@.skip(i + from@.len()));
                    assert(replace_all(rest, from@, to@) == rest.take(i - pos) + to@
                        + replace_all(rest.skip(i - pos + from@.len()), from@, to@));
                    assert(old_out + replace_all(rest, from@, to@) =~= out@ + replace_all(
                        v@.skip(i + from@.len()),
                        from@,
                        to@,
                    ));
                }
                pos = i + from.len();
            },
            None => {
                push_range(&mut out, v, pos, v.len());
                assert(rest =~= v@.subrange(pos as int, v.len() as int));
                return out;
            },
        }
    }
}

// ---------------------------------------------------------------------------
// Unicode case
// ---------------------------------------------------------------------------

/// What `str::to_lowercase` returns for the given characters.
pub uninterp spec fn unicode_lowercase(s: Seq<char>) -> Seq<char>;

/// std's `str::to_lowercase` (the full Unicode lower-case mapping);
/// trusted to give `unicode_lowercase` of its argument, a function of the
/// characters alone. Nothing more is claimed of the mapping.
#[verifier::external_body]
pub(crate) fn to_lowercase(s: &str) -> (r: String)
    ensures
        r@ == unicode_lowercase(s@),
{
    s.to_lowercase()
}

} // verus!
