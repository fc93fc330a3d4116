//! Text patterns of the shape `P1 [run] P2 (run) P3`: a literal, an optional
//! run of a character class that is skipped, a second literal, the captured
//! run, and a closing literal; matched exactly or up to case folding, with
//! an optional word boundary before the first literal. Runs are taken whole,
//! which is what a backtracking matcher does when the next literal cannot
//! start inside the run. Searching gives the leftmost match, and the matches
//! one after another without overlap.

use vstd::prelude::*;
use crate::text::{occurs_at, occurs_at_exec};
use crate::pattern::{
    ci_at, ci_at_exec, leftmost, leftmost_at, lemma_leftmost, lemma_leftmost_none,
    lemma_span_exists, span_end, span_end_exec, word_start, word_start_exec, CharClass,
};

verus! {

/// A pattern `P1 [skip] P2 (capture) P3`.
pub struct Pattern {
    pub p1: Vec<char>,
    pub case_insensitive: bool,
    pub word_boundary: bool,
    /// The class of the skipped run and whether it needs a character.
    pub skip: Option<(CharClass, bool)>,
    pub p2: Vec<char>,
    pub capture: CharClass,
    /// Whether the captured run needs at least one character.
    pub capture_nonempty: bool,
    pub p3: Vec<char>,
}

/// What a pattern is, as values.
pub struct PatternSpec {
    pub p1: Seq<char>,
    pub case_insensitive: bool,
    pub word_boundary: bool,
    pub skip: Option<(CharClass, bool)>,
    pub p2: Seq<char>,
    pub capture: CharClass,
    pub capture_nonempty: bool,
    pub p3: Seq<char>,
}

impl View for Pattern {
    type V = PatternSpec;

    open spec fn view(&self) -> PatternSpec {
        PatternSpec {
            p1: self.p1@,
            case_insensitive: self.case_insensitive,
            word_boundary: self.word_boundary,
            skip: self.skip,
            p2: self.p2@,
            capture: self.capture,
            capture_nonempty: self.capture_nonempty,
            p3: self.p3@,
        }
    }
}

/// `lit` at `i`, exactly or up to case folding.
pub open spec fn lit_match(s: Seq<char>, i: int, lit: Seq<char>, ci: bool) -> bool {
    if ci {
        ci_at(s, i, lit)
    } else {
        occurs_at(s, lit, i)
    }
}

fn lit_match_exec(v: &Vec<char>, i: usize, lit: &Vec<char>, ci: bool) -> (b: bool)
    ensures
        b == lit_match(v@, i as int, lit@, ci),
{
    if ci {
        ci_at_exec(v, i, lit)
    } else {
        occurs_at_exec(v, lit, i)
    }
}

/// Where the skipped run that starts at `a` ends, or -1 when it is required
/// and empty.
pub open spec fn skip_end(s: Seq<char>, a: int, skip: Option<(CharClass, bool)>) -> int {
    match skip {
        None => a,
        Some((k, needed)) => {
            let e = span_end(s, a, k);
            if needed && e == a {
                -1
            } else {
                e
            }
        },
    }
}

/// The captured bounds when the pattern matches at `i`.
pub open spec fn pattern_at(p: PatternSpec, s: Seq<char>, i: int) -> Option<(int, int)> {
    if 0 <= i && lit_match(s, i, p.p1, p.case_insensitive) && (!p.word_boundary || word_start(
        s,
        i,
    )) {
        let b = skip_end(s, i + p.p1.len(), p.skip);
        if b >= 0 && lit_match(s, b, p.p2, p.case_insensitive) {
            let c0 = b + p.p2.len();
            let c1 = span_end(s, c0, p.capture);
            if (!p.capture_nonempty || c1 > c0) && lit_match(s, c1, p.p3, p.case_insensitive) {
                Some((c0, c1))
            } else {
                None
            }
        } else {
            None
        }
    } else {
        None
    }
}

/// `pattern_at` as a function of the start position.
pub open spec fn matcher(p: PatternSpec, s: Seq<char>) -> spec_fn(int) -> Option<(int, int)> {
    |i: int| pattern_at(p, s, i)
}

/// A match at `i` lies inside the text, after `i`, and ends with the
/// closing literal.
pub proof fn lemma_pattern_bounds(p: PatternSpec, s: Seq<char>, i: int)
    requires
        pattern_at(p, s, i) is Some,
    ensures
        i <= pattern_at(p, s, i).unwrap().0 <= pattern_at(p, s, i).unwrap().1,
        pattern_at(p, s, i).unwrap().1 + p.p3.len() <= s.len(),
        p.p1.len() > 0 ==> i < pattern_at(p, s, i).unwrap().1 + p.p3.len(),
{
    let a = i + p.p1.len();
    let b = skip_end(s, a, p.skip);
    match p.skip {
        Some((k, needed)) => {
            lemma_span_exists(s, a, k);
        },
        None => {},
    }
    let c0 = b + p.p2.len();
    lemma_span_exists(s, c0, p.capture);
}

pub fn pattern_at_exec(p: &Pattern, v: &Vec<char>, i: usize) -> (r: Option<(usize, usize)>)
    ensures
        r matches Some(c) ==> pattern_at(p@, v@, i as int) == Some((c.0 as int, c.1 as int)),
        r is None ==> pattern_at(p@, v@, i as int) is None,
{
    if !lit_match_exec(v, i, &p.p1, p.case_insensitive) {
        return None;
    }
    if p.word_boundary && !word_start_exec(v, i) {
        return None;
    }
    assert(i + p.p1@.len() <= v@.len());
    assert(i + p.p1.len() <= v.len());
    let a = i + p.p1.len();
    let b = match &p.skip {
        None => a,
        Some((k, needed)) => {
            let e = span_end_exec(v, a, k);
            if *needed && e == a {
                return None;
            }
            e
        },
    };
    if !lit_match_exec(v, b, &p.p2, p.case_insensitive) {
        return None;
    }
    assert(b + p.p2@.len() <= v@.len());
    assert(b + p.p2.len() <= v.len());
    let c0 = b + p.p2.len();
    let c1 = span_end_exec(v, c0, &p.capture);
    if (!p.capture_nonempty || c1 > c0) && lit_match_exec(v, c1, &p.p3, p.case_insensitive) {
        Some((c0, c1))
    } else {
        None
    }
}

/// The captured bounds of the leftmost match at or after `from`.
pub fn find_exec(p: &Pattern, v: &Vec<char>, from: usize) -> (r: Option<(usize, usize)>)
    ensures
        r matches Some(c) ==> leftmost(matcher(p@, v@), from as int) == Some(
            (c.0 as int, c.1 as int),
        ) && from <= c.0 <= c.1 && c.1 + p@.p3.len() <= v@.len(),
        r is None ==> leftmost(matcher(p@, v@), from as int) is None,
{
    let ghost m = matcher(p@, v@);
    let mut i = from;
    while i < v.len()
        invariant
            from <= i,
            m == matcher(p@, v@),
            forall|j: int| from <= j < i ==> #[trigger] m(j) is None,
        decreases v.len() - i,
    {
        match pattern_at_exec(p, v, i) {
            Some(c) => {
                proof {
                    assert(leftmost_at(m, from as int, i as int));
                    lemma_leftmost(m, from as int, i as int);
                    lemma_pattern_bounds(p@, v@, i as int);
                }
                return Some(c);
            },
            None => {},
        }
        i = i + 1;
    }
    if i == v.len() {
        match pattern_at_exec(p, v, i) {
            Some(c) => {
                proof {
                    assert(leftmost_at(m, from as int, i as int));
                    lemma_leftmost(m, from as int, i as int);
                    lemma_pattern_bounds(p@, v@, i as int);
                }
                return Some(c);
            },
            None => {},
        }
    }
    proof {
        assert forall|j: int| from <= j implies #[trigger] m(j) is None by {
            if j > v@.len() {
                assert(!lit_match(v@, j, p@.p1, p@.case_insensitive));
            }
        }
        lemma_leftmost_none(m, from as int);
    }
    None
}

/// What the leftmost match captures, if there is one.
pub open spec fn capture_first(p: PatternSpec, s: Seq<char>) -> Option<Seq<char>> {
    match leftmost(matcher(p, s), 0) {
        Some(c) => Some(s.subrange(c.0, c.1)),
        None => None,
    }
}

/// The captures of the matches found one after another from `pos`, each
/// search starting where the previous match ended.
pub open spec fn captures_from(p: PatternSpec, s: Seq<char>, pos: int) -> Seq<Seq<char>>
    decreases s.len() + 1 - pos,
{
    if pos < 0 || pos > s.len() {
        Seq::empty()
    } else {
        match leftmost(matcher(p, s), pos) {
            Some(c) => if c.1 + p.p3.len() > pos {
                seq![s.subrange(c.0, c.1)] + captures_from(p, s, c.1 + p.p3.len())
            } else {
                Seq::empty()
            },
            None => Seq::empty(),
        }
    }
}

/// Every capture, in order (`Regex::captures_iter`).
pub open spec fn captures_all(p: PatternSpec, s: Seq<char>) -> Seq<Seq<char>> {
    captures_from(p, s, 0)
}

/// The captured text of the leftmost match.
pub fn capture_first_exec(p: &Pattern, v: &Vec<char>) -> (r: Option<String>)
    ensures
        r matches Some(c) ==> capture_first(p@, v@) == Some(c@),
        r is None ==> capture_first(p@, v@) is None,
{
    match find_exec(p, v, 0) {
        Some((a, b)) => Some(crate::text::string_of_range(v, a, b)),
        None => None,
    }
}

/// Every capture, in order.
pub fn captures_all_exec(p: &Pattern, v: &Vec<char>) -> (r: Vec<Vec<char>>)
    requires
        p@.p1.len() > 0,
    ensures
        r@.len() == captures_all(p@, v@).len(),
        forall|k: int| 0 <= k < r@.len() ==> #[trigger] r@[k]@ == captures_all(p@, v@)[k],
{
    let mut out: Vec<Vec<char>> = Vec::new();
    let mut pos: usize = 0;
    let ghost mut acc: Seq<Seq<char>> = Seq::empty();
    loop
        invariant
            p@.p1.len() > 0,
            pos <= v.len(),
            captures_all(p@, v@) == acc + captures_from(p@, v@, pos as int),
            out@.len() == acc.len(),
            forall|k: int| 0 <= k < out@.len() ==> #[trigger] out@[k]@ == acc[k],
        decreases v.len() - pos,
    {
        match find_exec(p, v, pos) {
            Some((a, b)) => {
                let mut cap: Vec<char> = Vec::new();
                crate::text::push_range(&mut cap, v, a, b);
                let ghost old_out = out@;
                out.push(cap);
                proof {
                    let m = matcher(p@, v@);
                    let i = choose|i: int| leftmost_at(m, pos as int, i);
                    lemma_pattern_bounds(p@, v@, i);
                    assert(captures_from(p@, v@, pos as int) == seq![v@.subrange(a as int, b as int)]
                        + captures_from(p@, v@, b + p@.p3.len()));
                    acc = acc.push(v@.subrange(a as int, b as int));
                    assert(captures_all(p@, v@) =~= acc + captures_from(p@, v@, b + p@.p3.len()));
                    assert forall|k: int| 0 <= k < out@.len() implies #[trigger] out@[k]@ == acc[k] by {
                        if k < old_out.len() {
                            assert(out@[k] == old_out[k]);
                        }
                    }
                }
                if b + p.p3.len() > v.len() {
                    // Cannot happen: a match ends inside the text.
                    return out;
                }
                pos = b + p.p3.len();
                if pos == v.len() {
                    proof {
                        assert(captures_from(p@, v@, pos as int) =~= Seq::<Seq<char>>::empty()) by {
                            match leftmost(matcher(p@, v@), pos as int) {
                                Some(c) => {
                                    let i = choose|i: int| leftmost_at(matcher(p@, v@), pos as int, i);
                                    lemma_pattern_bounds(p@, v@, i);
                                },
                                None => {},
                            }
                        }
                        assert(acc =~= captures_all(p@, v@));
                    }
                    return out;
                }
            },
            None => {
                proof {
                    assert(captures_from(p@, v@, pos as int) =~= Seq::<Seq<char>>::empty());
                    assert(acc =~= captures_all(p@, v@));
                }
                return out;
            },
        }
    }
}

/// The pattern `P1 (capture) P3`, without a skipped run.
pub open spec fn simple_spec(
    p1: Seq<char>,
    case_insensitive: bool,
    word_boundary: bool,
    capture: CharClass,
    capture_nonempty: bool,
    p3: Seq<char>,
) -> PatternSpec {
    PatternSpec {
        p1,
        case_insensitive,
        word_boundary,
        skip: None,
        p2: Seq::empty(),
        capture,
        capture_nonempty,
        p3,
    }
}

/// Builds the pattern `P1 (capture) P3`.
pub fn make_pattern(
    p1: &str,
    case_insensitive: bool,
    word_boundary: bool,
    capture: CharClass,
    capture_nonempty: bool,
    p3: &str,
) -> (p: Pattern)
    ensures
        p@ == simple_spec(p1@, case_insensitive, word_boundary, capture, capture_nonempty, p3@),
{
    let p = Pattern {
        p1: crate::text::chars_of(p1),
        case_insensitive,
        word_boundary,
        skip: None,
        p2: Vec::new(),
        capture,
        capture_nonempty,
        p3: crate::text::chars_of(p3),
    };
    assert(p@.p2 =~= Seq::<char>::empty());
    p
}

/// The captured bounds of the leftmost match in the whole text.
pub open spec fn leftmost_capture(p: PatternSpec, s: Seq<char>) -> Option<(int, int)> {
    leftmost(matcher(p, s), 0)
}

/// A leftmost match of a pattern without a skipped run starts right before
/// its capture.
pub proof fn lemma_leftmost_capture_start(p: PatternSpec, s: Seq<char>, c0: int, c1: int)
    requires
        p.skip is None,
        p.p2.len() == 0,
        leftmost(matcher(p, s), 0) == Some((c0, c1)),
    ensures
        c0 >= p.p1.len(),
        occurs_at(s, p.p1, c0 - p.p1.len()) || (p.case_insensitive && ci_at(s, c0 - p.p1.len(), p.p1)),
        c1 + p.p3.len() <= s.len(),
{
    let m = matcher(p, s);
    let i = choose|i: int| leftmost_at(m, 0, i);
    assert(leftmost_at(m, 0, i));
    lemma_pattern_bounds(p, s, i);
    assert(m(i) == pattern_at(p, s, i));
    assert(skip_end(s, i + p.p1.len(), p.skip) == i + p.p1.len());
}

} // verus!
