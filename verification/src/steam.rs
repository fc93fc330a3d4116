//! Finding a game on the Steam store from its executable, its DLC list, and
//! its achievements from the public community page.

use vstd::prelude::*;
use crate::models::{Achievement, AppDetailsEnvelope, DlcApp, SteamApp, StoreSearchResponse};
use crate::paths::{file_name, file_name_of, parent, parent_of, stem, stem_of};
use crate::pattern::{leftmost, leftmost_at, lemma_leftmost, lemma_leftmost_none, CharClass};
use crate::scan::{find_exec, matcher, pattern_at, Pattern, PatternSpec};
use crate::text::{
    chars_of, decimal, eq_ignore_ascii_case, eq_ignore_ascii_case_str, find_from, find_from_exec, occurs_at,
    push_decimal, replace_all, string_of, string_of_range, trim, trim_range,
};
use crate::workshop::replace_lit;

verus! {

broadcast use vstd::string::group_string_axioms;

// ---------------------------------------------------------------------------
// Search terms and store search
// ---------------------------------------------------------------------------

/// Some term equals `t` up to ASCII case.
pub open spec fn has_term(terms: Seq<Seq<char>>, t: Seq<char>) -> bool {
    exists|i: int| 0 <= i < terms.len() && eq_ignore_ascii_case(#[trigger] terms[i], t)
}

/// The search terms for an executable, in the order they are tried: the
/// file's stem (when not blank), its folder's name (when not blank and not
/// already a term up to ASCII case), then the whole path (when not already
/// a term).
pub open spec fn spec_build_search_terms(exe_path: Seq<char>) -> Seq<Seq<char>> {
    let s = stem(file_name(exe_path));
    let t0: Seq<Seq<char>> = if trim(s).len() > 0 {
        seq![s]
    } else {
        seq![]
    };
    let t1 = match parent(exe_path) {
        Some(p) => {
            let f = file_name(p);
            if trim(f).len() > 0 && !has_term(t0, f) {
                t0.push(f)
            } else {
                t0
            }
        },
        None => t0,
    };
    if has_term(t1, exe_path) {
        t1
    } else {
        t1.push(exe_path)
    }
}

/// The terms as values.
pub open spec fn strings_view(v: Seq<String>) -> Seq<Seq<char>> {
    v.map_values(|s: String| s@)
}

fn has_term_exec(terms: &Vec<String>, t: &str) -> (r: bool)
    ensures
        r == has_term(strings_view(terms@), t@),
{
    let mut i: usize = 0;
    while i < terms.len()
        invariant
            i <= terms.len(),
            forall|j: int| 0 <= j < i ==> !eq_ignore_ascii_case(#[trigger] terms@[j]@, t@),
        decreases terms.len() - i,
    {
        if eq_ignore_ascii_case_str(terms[i].as_str(), t) {
            assert(strings_view(terms@)[i as int] == terms@[i as int]@);
            return true;
        }
        i = i + 1;
    }
    proof {
        assert forall|j: int| 0 <= j < strings_view(terms@).len() implies !eq_ignore_ascii_case(
            #[trigger] strings_view(terms@)[j],
            t@,
        ) by {
            assert(strings_view(terms@)[j] == terms@[j]@);
        }
    }
    false
}

/// Builds the ordered list of search terms: executable name, folder name,
/// full path.
pub fn build_search_terms(exe_path: &str) -> (r: Vec<String>)
    ensures
        strings_view(r@) == spec_build_search_terms(exe_path@),
{
    let mut terms: Vec<String> = Vec::new();
    let name = file_name_of(exe_path);
    let s = stem_of(name.as_str());
    if !crate::text::trim_str(s.as_str()).as_str().is_empty() {
        terms.push(s);
    }
    assert(strings_view(terms@) =~= (if trim(stem(file_name(exe_path@))).len() > 0 {
        seq![stem(file_name(exe_path@))]
    } else {
        Seq::<Seq<char>>::empty()
    }));
    match parent_of(exe_path) {
        Some(p) => {
            let f = file_name_of(p.as_str());
            if !crate::text::trim_str(f.as_str()).as_str().is_empty() && !has_term_exec(
                &terms,
                f.as_str(),
            ) {
                let ghost before = terms@;
                terms.push(f);
                assert(strings_view(terms@) =~= strings_view(before).push(file_name(p@)));
            }
        },
        None => {},
    }
    if !has_term_exec(&terms, exe_path) {
        let ghost before = terms@;
        terms.push(String::from_str(exe_path));
        assert(strings_view(terms@) =~= strings_view(before).push(exe_path@));
    }
    terms
}

/// The games among a store search's hits: the items of type `app` (up to
/// ASCII case); a blank term is not searched and finds nothing.
pub open spec fn spec_store_search(term: Seq<char>, items: Seq<(Seq<char>, u32, Seq<char>)>) -> Seq<
    (u32, Seq<char>),
>
    decreases items.len(),
{
    if trim(term).len() == 0 || items.len() == 0 {
        seq![]
    } else {
        let rest = spec_store_search(term, items.drop_last());
        let it = items.last();
        if eq_ignore_ascii_case(it.0, "app"@) {
            rest.push((it.1, it.2))
        } else {
            rest
        }
    }
}

/// A hit that is a game: its type is `app` up to ASCII case.
pub open spec fn is_app_item(it: (Seq<char>, u32, Seq<char>)) -> bool {
    eq_ignore_ascii_case(it.0, "app"@)
}

/// A hit as an app: its id and name.
pub open spec fn item_app(it: (Seq<char>, u32, Seq<char>)) -> (u32, Seq<char>) {
    (it.1, it.2)
}

/// A store search for a non-blank term keeps every hit that is a game, in
/// the order of the answer, and no other; a blank term finds nothing.
pub proof fn law_store_search_keeps_every_game(term: Seq<char>, items: Seq<(Seq<char>, u32, Seq<char>)>)
    ensures
        trim(term).len() > 0 ==> spec_store_search(term, items) == items.filter(|it: (Seq<char>, u32, Seq<char>)| is_app_item(it)).map_values(
            |it: (Seq<char>, u32, Seq<char>)| item_app(it),
        ),
        trim(term).len() == 0 ==> spec_store_search(term, items).len() == 0,
    decreases items.len(),
{
    let p = |it: (Seq<char>, u32, Seq<char>)| is_app_item(it);
    let f = |it: (Seq<char>, u32, Seq<char>)| item_app(it);
    if trim(term).len() > 0 {
        if items.len() == 0 {
            assert(items.filter(p) =~= Seq::<(Seq<char>, u32, Seq<char>)>::empty()) by {
                reveal(Seq::filter);
            }
            assert(items.filter(p).map_values(f) =~= Seq::<(u32, Seq<char>)>::empty());
        } else {
            let init = items.drop_last();
            law_store_search_keeps_every_game(term, init);
            init.lemma_filter_push(items.last(), p);
            assert(init.push(items.last()) =~= items);
            if is_app_item(items.last()) {
                assert(init.filter(p).push(items.last()).map_values(f) =~= init.filter(p).map_values(f).push(
                    item_app(items.last()),
                ));
            }
        }
    }
}

/// The hits of a store search response as values.
pub open spec fn items_view(r: StoreSearchResponse) -> Seq<(Seq<char>, u32, Seq<char>)> {
    r.items@.map_values(|i: crate::models::StoreSearchItem| (i.item_type@, i.id, i.name@))
}

/// Apps as values.
pub open spec fn apps_view(v: Seq<SteamApp>) -> Seq<(u32, Seq<char>)> {
    v.map_values(|a: SteamApp| (a.app_id, a.name@))
}

/// The games among the hits of a store search for `term`.
pub fn store_search(term: &str, response: &StoreSearchResponse) -> (r: Vec<SteamApp>)
    ensures
        apps_view(r@) == spec_store_search(term@, items_view(*response)),
        trim(term@).len() > 0 ==> apps_view(r@) == items_view(*response).filter(
            |it: (Seq<char>, u32, Seq<char>)| is_app_item(it),
        ).map_values(|it: (Seq<char>, u32, Seq<char>)| item_app(it)),
        trim(term@).len() == 0 ==> r@.len() == 0,
{
    proof {
        law_store_search_keeps_every_game(term@, items_view(*response));
    }
    let mut out: Vec<SteamApp> = Vec::new();
    if crate::text::trim_str(term).as_str().is_empty() {
        assert(apps_view(out@) =~= spec_store_search(term@, items_view(*response)));
        return out;
    }
    let mut k: usize = 0;
    while k < response.items.len()
        invariant
            k <= response.items.len(),
            trim(term@).len() > 0,
            apps_view(out@) == spec_store_search(
                term@,
                items_view(*response).take(k as int),
            ),
        decreases response.items.len() - k,
    {
        let it = &response.items[k];
        proof {
            let t = items_view(*response).take(k + 1);
            assert(t.drop_last() =~= items_view(*response).take(k as int));
            assert(t.last() == (it.item_type@, it.id, it.name@));
        }
        if eq_ignore_ascii_case_str(it.item_type.as_str(), "app") {
            let ghost before = out@;
            out.push(SteamApp { app_id: it.id, name: it.name.clone() });
            assert(apps_view(out@) =~= apps_view(before).push((it.id, it.name@)));
        }
        k = k + 1;
    }
    assert(items_view(*response).take(response.items.len() as int) =~= items_view(*response));
    out
}

/// How a search for an executable's game came out.
pub enum AppSearchOutcome {
    Found(SteamApp),
    Ambiguous(Vec<SteamApp>),
    NotFound,
}

/// Index of the first app named `term` up to ASCII case, if any.
pub open spec fn exact_index(results: Seq<SteamApp>, term: Seq<char>) -> Option<int> {
    if exists|i: int| 0 <= i < results.len() && eq_ignore_ascii_case(results[i].name@, term) {
        Some(
            choose|i: int|
                0 <= i < results.len() && eq_ignore_ascii_case(results[i].name@, term) && forall|
                    j: int,
                | 0 <= j < i ==> !eq_ignore_ascii_case(#[trigger] results[j].name@, term),
        )
    } else {
        None
    }
}

/// What one term's results decide: nothing (try the next term) when there
/// are none, the only hit, else the first hit named like the term, else all
/// hits for the user to choose from.
pub open spec fn spec_search_step(term: Seq<char>, results: Seq<SteamApp>) -> Option<
    AppSearchOutcome,
> {
    if results.len() == 0 {
        None
    } else if results.len() == 1 {
        Some(AppSearchOutcome::Found(results[0]))
    } else {
        match exact_index(results, term) {
            Some(i) => Some(AppSearchOutcome::Found(results[i])),
            None => None,
        }
    }
}

/// The results decide for the hits themselves to be shown (ambiguous).
pub open spec fn is_ambiguous(term: Seq<char>, results: Seq<SteamApp>) -> bool {
    results.len() > 1 && exact_index(results, term) is None
}

/// What one term's search results decide; `None` means the next term is to
/// be tried.
pub fn search_step(term: &str, results: Vec<SteamApp>) -> (r: Option<AppSearchOutcome>)
    ensures
        is_ambiguous(term@, results@) ==> r == Some(AppSearchOutcome::Ambiguous(results)),
        !is_ambiguous(term@, results@) ==> r == spec_search_step(term@, results@),
{
    if results.len() == 0 {
        return None;
    }
    if results.len() == 1 {
        let a = results[0].copy();
        return Some(AppSearchOutcome::Found(a));
    }
    let mut i: usize = 0;
    while i < results.len()
        invariant
            i <= results.len(),
            forall|j: int| 0 <= j < i ==> !eq_ignore_ascii_case(#[trigger] results@[j].name@, term@),
        decreases results.len() - i,
    {
        if eq_ignore_ascii_case_str(results[i].name.as_str(), term) {
            proof {
                let w = choose|k: int|
                    0 <= k < results@.len() && eq_ignore_ascii_case(results@[k].name@, term@)
                        && forall|j: int|
                        0 <= j < k ==> !eq_ignore_ascii_case(#[trigger] results@[j].name@, term@);
                assert(0 <= i < results@.len() && eq_ignore_ascii_case(results@[i as int].name@, term@));
                if w < i {
                    assert(!eq_ignore_ascii_case(results@[w].name@, term@));
                } else if w > i {
                    assert(!eq_ignore_ascii_case(results@[i as int].name@, term@));
                }
            }
            let a = results[i].copy();
            return Some(AppSearchOutcome::Found(a));
        }
        i = i + 1;
    }
    Some(AppSearchOutcome::Ambiguous(results))
}

/// Index of the first term whose search found anything.
pub open spec fn first_found(tried: Seq<(String, Vec<SteamApp>)>) -> Option<int> {
    if exists|k: int| 0 <= k < tried.len() && tried[k].1@.len() > 0 {
        Some(
            choose|k: int|
                0 <= k < tried.len() && tried[k].1@.len() > 0 && forall|j: int|
                    0 <= j < k ==> #[trigger] tried[j].1@.len() == 0,
        )
    } else {
        None
    }
}

/// Decides the game for an executable from the terms tried so far, in
/// order, with their store search results: the first term that found
/// anything decides as `search_step` says; with no hits at all the game is
/// not found.
#[verifier::loop_isolation(false)]
pub fn find_app_by_exe(tried: Vec<(String, Vec<SteamApp>)>) -> (r: AppSearchOutcome)
    ensures
        first_found(tried@) is None ==> r is NotFound,
        first_found(tried@) matches Some(k) ==> {
            let term = tried@[k].0@;
            let results = tried@[k].1@;
            &&& is_ambiguous(term, results) ==> r == AppSearchOutcome::Ambiguous(tried@[k].1)
            &&& !is_ambiguous(term, results) ==> Some(r) == spec_search_step(term, results)
        },
{
    let mut tried = tried;
    let ghost orig = tried@;
    let mut k: usize = 0;
    while k < tried.len()
        invariant
            tried@ == orig,
            k <= tried.len(),
            forall|j: int| 0 <= j < k ==> #[trigger] tried@[j].1@.len() == 0,
        decreases tried.len() - k,
    {
        if tried[k].1.len() > 0 {
            proof {
                let w = choose|m: int|
                    0 <= m < orig.len() && orig[m].1@.len() > 0 && forall|j: int|
                        0 <= j < m ==> #[trigger] orig[j].1@.len() == 0;
                assert(0 <= k < orig.len() && orig[k as int].1@.len() > 0);
                if w < k {
                    assert(orig[w].1@.len() == 0);
                } else if w > k {
                    assert(orig[k as int].1@.len() == 0);
                }
                assert(first_found(orig) == Some(k as int));
            }
            let (term, results) = tried.remove(k);
            match search_step(term.as_str(), results) {
                Some(o) => {
                    return o;
                },
                None => {
                    return AppSearchOutcome::NotFound;
                },
            }
        }
        k = k + 1;
    }
    AppSearchOutcome::NotFound
}

// ---------------------------------------------------------------------------
// App details
// ---------------------------------------------------------------------------

/// The app's name from an app details answer (`None` when the answer is
/// missing, unsuccessful or has no name).
pub open spec fn spec_get_app_name(details: Option<AppDetailsEnvelope>) -> Option<Seq<char>> {
    match details {
        Some(e) => if e.success {
            match e.data {
                Some(d) => match d.name {
                    Some(n) => Some(n@),
                    None => None,
                },
                None => None,
            }
        } else {
            None
        },
        None => None,
    }
}

/// The app's display name from its app details answer.
pub fn get_app_name(details: &Option<AppDetailsEnvelope>) -> (r: Option<String>)
    ensures
        r matches Some(n) ==> spec_get_app_name(*details) == Some(n@),
        r is None ==> spec_get_app_name(*details) is None,
{
    match details {
        Some(e) => if e.success {
            match &e.data {
                Some(d) => match &d.name {
                    Some(n) => Some(n.clone()),
                    None => None,
                },
                None => None,
            }
        } else {
            None
        },
        None => None,
    }
}

/// The DLC ids an app details answer lists (none when it is missing or
/// unsuccessful).
pub open spec fn dlc_ids(details: Option<AppDetailsEnvelope>) -> Seq<u32> {
    match details {
        Some(e) => if e.success {
            match e.data {
                Some(d) => d.dlc@,
                None => seq![],
            }
        } else {
            seq![]
        },
        None => seq![],
    }
}

/// The label of a DLC whose name is unknown.
pub open spec fn unknown_dlc(id: nat) -> Seq<char> {
    "Unknown DLC "@ + decimal(id)
}

/// The DLC list: each DLC id with the name looked up for it (`names[i]`
/// for the `i`-th id), or `Unknown DLC <id>`.
pub open spec fn spec_dlc_entry(ids: Seq<u32>, names: Seq<Option<String>>, i: int) -> (u32, Seq<char>) {
    (
        ids[i],
        if i < names.len() && names[i] is Some {
            names[i].unwrap()@
        } else {
            unknown_dlc(ids[i] as nat)
        },
    )
}

/// DLCs as values.
pub open spec fn dlcs_view(v: Seq<DlcApp>) -> Seq<(u32, Seq<char>)> {
    v.map_values(|d: DlcApp| (d.app_id, d.name@))
}

/// Lists a game's DLCs from its app details answer and the names looked up
/// for each DLC id (in the same order; a missing name is `None`).
pub fn get_dlc_list(details: &Option<AppDetailsEnvelope>, names: &Vec<Option<String>>) -> (r: Vec<
    DlcApp,
>)
    ensures
        r@.len() == dlc_ids(*details).len(),
        forall|i: int|
            0 <= i < r@.len() ==> (#[trigger] dlcs_view(r@)[i]) == spec_dlc_entry(
                dlc_ids(*details),
                names@,
                i,
            ),
        forall|i: int|
            #![trigger r@[i]]
            0 <= i < r@.len() ==> {
                &&& r@[i].app_id == dlc_ids(*details)[i]
                &&& i < names@.len() ==> (names@[i] matches Some(n) ==> r@[i].name@ == n@)
                &&& !(i < names@.len() && names@[i] is Some) ==> r@[i].name@ == unknown_dlc(
                    dlc_ids(*details)[i] as nat,
                )
            },
{
    let empty: Vec<u32> = Vec::new();
    let ids: &Vec<u32> = match details {
        Some(e) => if e.success {
            match &e.data {
                Some(d) => &d.dlc,
                None => &empty,
            }
        } else {
            &empty
        },
        None => &empty,
    };
    assert(ids@ == dlc_ids(*details));
    let mut out: Vec<DlcApp> = Vec::new();
    let mut i: usize = 0;
    while i < ids.len()
        invariant
            i <= ids.len(),
            ids@ == dlc_ids(*details),
            out@.len() == i,
            forall|j: int|
                0 <= j < i ==> (#[trigger] dlcs_view(out@)[j]) == spec_dlc_entry(ids@, names@, j),
        decreases ids.len() - i,
    {
        let id = ids[i];
        let name = if i < names.len() && names[i].is_some() {
            match &names[i] {
                Some(n) => n.clone(),
                None => String::new(),
            }
        } else {
            let mut v = chars_of("Unknown DLC ");
            push_decimal(&mut v, id as u64);
            string_of(&v)
        };
        let ghost before = out@;
        out.push(DlcApp { app_id: id, name });
        proof {
            assert forall|j: int| 0 <= j < i + 1 implies (#[trigger] dlcs_view(out@)[j])
                == spec_dlc_entry(ids@, names@, j) by {
                if j < i {
                    assert(out@[j] == before[j]);
                    assert(dlcs_view(out@)[j] == dlcs_view(before)[j]);
                } else {
                    assert(dlcs_view(out@)[j] == (out@[j].app_id, out@[j].name@));
                }
            }
        }
        i = i + 1;
    }
    proof {
        assert forall|i: int| #![trigger out@[i]] 0 <= i < out@.len() implies {
            &&& out@[i].app_id == dlc_ids(*details)[i]
            &&& i < names@.len() ==> (names@[i] matches Some(n) ==> out@[i].name@ == n@)
            &&& !(i < names@.len() && names@[i] is Some) ==> out@[i].name@ == unknown_dlc(
                dlc_ids(*details)[i] as nat,
            )
        } by {
            assert(dlcs_view(out@)[i] == spec_dlc_entry(ids@, names@, i));
            law_dlc_entry_names(ids@, names@, i);
        }
    }
    out
}

/// Every DLC keeps its id and takes the name looked up for it whenever one
/// was found; only a DLC with no name found is `Unknown DLC <id>`.
pub proof fn law_dlc_entry_names(ids: Seq<u32>, names: Seq<Option<String>>, i: int)
    requires
        0 <= i < ids.len(),
    ensures
        spec_dlc_entry(ids, names, i).0 == ids[i],
        i < names.len() ==> (names[i] matches Some(n) ==> spec_dlc_entry(ids, names, i).1 == n@),
        !(i < names.len() && names[i] is Some) ==> spec_dlc_entry(ids, names, i).1 == unknown_dlc(
            ids[i] as nat,
        ),
{
}

// ---------------------------------------------------------------------------
// Achievements
// ---------------------------------------------------------------------------

/// One achievement as the community page shows it.
pub struct CommunityAchRow {
    pub display_name: String,
    pub description: String,
    pub icon: String,
}

/// The entities the community page uses, decoded in this order:
/// `&amp;` `&lt;` `&gt;` `&quot;` `&#039;` `&apos;`.
pub open spec fn spec_decode_community_entities(s: Seq<char>) -> Seq<char> {
    replace_all(
        replace_all(
            replace_all(
                replace_all(
                    replace_all(replace_all(s, "&amp;"@, "&"@), "&lt;"@, "<"@),
                    "&gt;"@,
                    ">"@,
                ),
                "&quot;"@,
                "\""@,
            ),
            "&#039;"@,
            "'"@,
        ),
        "&apos;"@,
        "'"@,
    )
}

/// Decodes the HTML entities of the community page's text.
pub fn decode_html_entities(s: &Vec<char>) -> (r: Vec<char>)
    ensures
        r@ == spec_decode_community_entities(s@),
{
    proof {
        reveal_strlit("&amp;");
        reveal_strlit("&lt;");
        reveal_strlit("&gt;");
        reveal_strlit("&quot;");
        reveal_strlit("&#039;");
        reveal_strlit("&apos;");
    }
    let a = replace_lit(s, "&amp;", "&");
    let b = replace_lit(&a, "&lt;", "<");
    let c = replace_lit(&b, "&gt;", ">");
    let d = replace_lit(&c, "&quot;", "\"");
    let e = replace_lit(&d, "&#039;", "'");
    replace_lit(&e, "&apos;", "'")
}

/// `<div class="achieveRow[^"]*">`.
pub open spec fn row_start_pattern() -> PatternSpec {
    PatternSpec {
        p1: "<div class=\"achieveRow"@,
        case_insensitive: false,
        word_boundary: false,
        skip: Some((CharClass::Not('"'), false)),
        p2: "\">"@,
        capture: CharClass::Not('"'),
        capture_nonempty: false,
        p3: ""@,
    }
}

/// `<img src="([^"]+)"`.
pub open spec fn img_pattern() -> PatternSpec {
    crate::scan::simple_spec("<img src=\""@, false, false, CharClass::Not('"'), true, "\""@)
}

/// The first `open ... close` at or after `from`: the bounds of what lies
/// between the first `open` and the first `close` after it.
pub open spec fn tag_pair(s: Seq<char>, from: int, open: Seq<char>, close: Seq<char>) -> Option<
    (int, int),
> {
    match find_from(s, open, from) {
        Some(p) => match find_from(s, close, p + open.len()) {
            Some(q) => Some((p + open.len(), q)),
            None => None,
        },
        None => None,
    }
}

/// The rest of a row after its opening tag at `e`: the image source, the
/// `<h3>` title and the `<h5>` description (each the first one after the
/// previous part), and where the row's match ends.
pub open spec fn row_parts(s: Seq<char>, e: int) -> Option<((int, int), (int, int), (int, int), int)> {
    match leftmost(matcher(img_pattern(), s), e) {
        Some((a, b)) => match tag_pair(s, b + 1, "<h3>"@, "</h3>"@) {
            Some((c, d)) => match tag_pair(s, d + 5, "<h5>"@, "</h5>"@) {
                Some((f, g)) => Some(((a, b), (c, d), (f, g), g + 5)),
                None => None,
            },
            None => None,
        },
        None => None,
    }
}

/// The pattern
/// `(?s)<div class="achieveRow[^"]*">.*?<img src="([^"]+)".*?<h3>(.*?)</h3>.*?<h5>(.*?)</h5>`
/// matched at `i`: its start and end.
pub open spec fn row_match(s: Seq<char>, i: int) -> Option<(int, int)> {
    match pattern_at(row_start_pattern(), s, i) {
        Some((c0, _)) => match row_parts(s, c0) {
            Some(parts) => Some((i, parts.3)),
            None => None,
        },
        None => None,
    }
}

/// The row matched at `i`: icon, title and description, the texts trimmed
/// and decoded.
pub open spec fn row_of(s: Seq<char>, i: int) -> (Seq<char>, Seq<char>, Seq<char>) {
    let c0 = pattern_at(row_start_pattern(), s, i).unwrap().0;
    let parts = row_parts(s, c0).unwrap();
    (
        s.subrange(parts.0.0, parts.0.1),
        spec_decode_community_entities(trim(s.subrange(parts.1.0, parts.1.1))),
        spec_decode_community_entities(trim(s.subrange(parts.2.0, parts.2.1))),
    )
}

/// The rows matched one after another from `pos`.
#[verifier::opaque]
pub open spec fn rows_from(s: Seq<char>, pos: int) -> Seq<(Seq<char>, Seq<char>, Seq<char>)>
    decreases s.len() + 1 - pos,
{
    if pos < 0 || pos > s.len() {
        seq![]
    } else {
        match leftmost(|i: int| row_match(s, i), pos) {
            Some((i, end)) => if pos < end <= s.len() {
                seq![row_of(s, i)] + rows_from(s, end)
            } else {
                seq![]
            },
            None => seq![],
        }
    }
}

/// One step of `rows_from`: the leftmost row, then the rows after it.
proof fn lemma_rows_from_step(s: Seq<char>, pos: int, i: int, end: int)
    requires
        0 <= pos <= s.len(),
        leftmost(|i: int| row_match(s, i), pos) == Some((i, end)),
        pos < end <= s.len(),
    ensures
        rows_from(s, pos) == seq![row_of(s, i)] + rows_from(s, end),
{
    reveal(rows_from);
}

/// No row at or after `pos`.
proof fn lemma_rows_from_none(s: Seq<char>, pos: int)
    requires
        0 <= pos <= s.len(),
        leftmost(|i: int| row_match(s, i), pos) is None,
    ensures
        rows_from(s, pos) == Seq::<(Seq<char>, Seq<char>, Seq<char>)>::empty(),
{
    reveal(rows_from);
}

/// The achievement rows of a community achievements page.
pub open spec fn spec_community_rows(html: Seq<char>) -> Seq<(Seq<char>, Seq<char>, Seq<char>)> {
    rows_from(html, 0)
}

/// Rows as values.
pub open spec fn rows_view(v: Seq<CommunityAchRow>) -> Seq<(Seq<char>, Seq<char>, Seq<char>)> {
    v.map_values(|r: CommunityAchRow| (r.icon@, r.display_name@, r.description@))
}

fn tag_pair_exec(v: &Vec<char>, from: usize, open_tag: &Vec<char>, close_tag: &Vec<char>) -> (r: Option<
    (usize, usize),
>)
    requires
        open_tag@.len() > 0,
        close_tag@.len() > 0,
    ensures
        r matches Some(c) ==> tag_pair(v@, from as int, open_tag@, close_tag@) == Some(
            (c.0 as int, c.1 as int),
        ) && from + open_tag@.len() <= c.0 <= c.1 && c.1 + close_tag@.len() <= v@.len(),
        r is None ==> tag_pair(v@, from as int, open_tag@, close_tag@) is None,
{
    match find_from_exec(v, open_tag, from) {
        Some(p) => {
            assert(occurs_at(v@, open_tag@, p as int));
            let n = v.len();
            assert(p + open_tag.len() <= n);
            let start = p + open_tag.len();
            match find_from_exec(v, close_tag, start) {
                Some(q) => Some((start, q)),
                None => None,
            }
        },
        None => None,
    }
}

fn row_match_exec(v: &Vec<char>, i: usize, start: &Pattern, img: &Pattern) -> (r: Option<(
    (usize, usize),
    (usize, usize),
    (usize, usize),
    usize,
)>)
    requires
        i <= v.len(),
        start@ == row_start_pattern(),
        img@ == img_pattern(),
    ensures
        r matches Some(m) ==> row_match(v@, i as int) == Some((i as int, m.3 as int)) && i < m.3
            <= v@.len() && m.0.0 <= m.0.1 <= v@.len() && m.1.0 <= m.1.1 <= v@.len() && m.2.0
            <= m.2.1 <= v@.len() && row_of(v@, i as int) == (
            v@.subrange(m.0.0 as int, m.0.1 as int),
            spec_decode_community_entities(trim(v@.subrange(m.1.0 as int, m.1.1 as int))),
            spec_decode_community_entities(trim(v@.subrange(m.2.0 as int, m.2.1 as int))),
        ),
        r is None ==> row_match(v@, i as int) is None,
{
    proof {
        reveal_strlit("<div class=\"achieveRow");
        reveal_strlit("<h3>");
        reveal_strlit("</h3>");
        reveal_strlit("<h5>");
        reveal_strlit("</h5>");
        reveal_strlit("\"");
    }
    let c0 = match crate::scan::pattern_at_exec(start, v, i) {
        Some((c0, _)) => c0,
        None => {
            return None;
        },
    };
    proof {
        crate::scan::lemma_pattern_bounds(start@, v@, i as int);
    }
    let (a, b) = match find_exec(img, v, c0) {
        Some(m) => m,
        None => {
            return None;
        },
    };
    let (c, d) = match tag_pair_exec(v, b + 1, &chars_of("<h3>"), &chars_of("</h3>")) {
        Some(m) => m,
        None => {
            return None;
        },
    };
    let (f, g) = match tag_pair_exec(v, d + 5, &chars_of("<h5>"), &chars_of("</h5>")) {
        Some(m) => m,
        None => {
            return None;
        },
    };
    Some(((a, b), (c, d), (f, g), g + 5))
}

/// The bounds of a row's parts.
pub type RowBounds = ((usize, usize), (usize, usize), (usize, usize), usize);

/// The row described by `f` matched at `i` (its parts in `v`).
pub open spec fn row_found(v: Seq<char>, i: int, f: RowBounds) -> bool {
    &&& row_match(v, i) == Some((i, f.3 as int))
    &&& i < f.3 <= v.len()
    &&& f.0.0 <= f.0.1 <= v.len()
    &&& f.1.0 <= f.1.1 <= v.len()
    &&& f.2.0 <= f.2.1 <= v.len()
    &&& row_of(v, i) == (
        v.subrange(f.0.0 as int, f.0.1 as int),
        spec_decode_community_entities(trim(v.subrange(f.1.0 as int, f.1.1 as int))),
        spec_decode_community_entities(trim(v.subrange(f.2.0 as int, f.2.1 as int))),
    )
}

/// The leftmost row at or after `pos`.
fn find_row(v: &Vec<char>, pos: usize, start: &Pattern, img: &Pattern) -> (r: Option<(usize, RowBounds)>)
    requires
        pos <= v.len(),
        start@ == row_start_pattern(),
        img@ == img_pattern(),
    ensures
        r matches Some((i, f)) ==> pos <= i && row_found(v@, i as int, f) && leftmost(
            |i: int| row_match(v@, i),
            pos as int,
        ) == Some((i as int, f.3 as int)),
        r is None ==> leftmost(|i: int| row_match(v@, i), pos as int) is None,
{
    let ghost m = |i: int| row_match(v@, i);
    let mut i = pos;
    loop
        invariant
            pos <= i <= v.len(),
            start@ == row_start_pattern(),
            img@ == img_pattern(),
            m == (|i: int| row_match(v@, i)),
            forall|j: int| pos <= j < i ==> #[trigger] m(j) is None,
        decreases v.len() - i,
    {
        match row_match_exec(v, i, start, img) {
            Some(f) => {
                proof {
                    assert(leftmost_at(m, pos as int, i as int));
                    lemma_leftmost(m, pos as int, i as int);
                }
                return Some((i, f));
            },
            None => {},
        }
        if i == v.len() {
            proof {
                assert forall|j: int| pos <= j implies #[trigger] m(j) is None by {
                    if j > v@.len() {
                        assert(pattern_at(row_start_pattern(), v@, j) is None) by {
                            reveal_strlit("<div class=\"achieveRow");
                        }
                    }
                }
                lemma_leftmost_none(m, pos as int);
            }
            return None;
        }
        i = i + 1;
    }
}

/// The row record for parts found in `v`.
fn build_row(v: &Vec<char>, f: RowBounds) -> (r: CommunityAchRow)
    requires
        f.0.0 <= f.0.1 <= v.len(),
        f.1.0 <= f.1.1 <= v.len(),
        f.2.0 <= f.2.1 <= v.len(),
    ensures
        (r.icon@, r.display_name@, r.description@) == (
            v@.subrange(f.0.0 as int, f.0.1 as int),
            spec_decode_community_entities(trim(v@.subrange(f.1.0 as int, f.1.1 as int))),
            spec_decode_community_entities(trim(v@.subrange(f.2.0 as int, f.2.1 as int))),
        ),
{
    let ((a, b), (c, d), (e, g), _) = f;
    let icon = string_of_range(v, a, b);
    let (t0, t1) = trim_range(v, c, d);
    let mut tv: Vec<char> = Vec::new();
    crate::text::push_range(&mut tv, v, t0, t1);
    let title = decode_html_entities(&tv);
    let (u0, u1) = trim_range(v, e, g);
    let mut uv: Vec<char> = Vec::new();
    crate::text::push_range(&mut uv, v, u0, u1);
    let desc = decode_html_entities(&uv);
    CommunityAchRow { display_name: string_of(&title), description: string_of(&desc), icon }
}

/// Reads the achievement rows (icon, title, description) of a community
/// achievements page; titles and descriptions are trimmed and decoded.
pub fn parse_community_achievement_rows(html: &str) -> (r: Vec<CommunityAchRow>)
    ensures
        rows_view(r@) == spec_community_rows(html@),
{
    let v = chars_of(html);
    let start = Pattern {
        p1: chars_of("<div class=\"achieveRow"),
        case_insensitive: false,
        word_boundary: false,
        skip: Some((CharClass::Not('"'), false)),
        p2: chars_of("\">"),
        capture: CharClass::Not('"'),
        capture_nonempty: false,
        p3: chars_of(""),
    };
    let img = crate::scan::make_pattern("<img src=\"", false, false, CharClass::Not('"'), true, "\"");
    let mut out: Vec<CommunityAchRow> = Vec::new();
    let ghost mut acc: Seq<(Seq<char>, Seq<char>, Seq<char>)> = seq![];
    let mut pos: usize = 0;
    loop
        invariant
            pos <= v.len(),
            v@ == html@,
            start@ == row_start_pattern(),
            img@ == img_pattern(),
            rows_from(v@, 0) == acc + rows_from(v@, pos as int),
            rows_view(out@) == acc,
        decreases v.len() - pos,
    {
        match find_row(&v, pos, &start, &img) {
            Some((i, f)) => {
                let row = build_row(&v, f);
                let ghost before = out@;
                out.push(row);
                proof {
                    lemma_rows_from_step(v@, pos as int, i as int, f.3 as int);
                    acc = acc.push(row_of(v@, i as int));
                    assert(rows_view(out@) =~= rows_view(before).push(row_of(v@, i as int)));
                    assert(rows_from(v@, 0) =~= acc + rows_from(v@, f.3 as int));
                }
                pos = f.3;
            },
            None => {
                proof {
                    lemma_rows_from_none(v@, pos as int);
                    assert(acc =~= rows_from(v@, 0));
                }
                return out;
            },
        }
    }
}

/// The achievements: the API names paired in order with the community
/// rows, as many as the shorter list has; not hidden, with the row's icon
/// as both icons.
pub open spec fn spec_achievement(name: Seq<char>, row: (Seq<char>, Seq<char>, Seq<char>)) -> (
    Seq<char>,
    Seq<char>,
    Seq<char>,
    Seq<char>,
    Seq<char>,
    Seq<char>,
) {
    (name, row.1, row.2, "0"@, row.0, row.0)
}

/// Achievements as values.
pub open spec fn achievements_view(v: Seq<Achievement>) -> Seq<
    (Seq<char>, Seq<char>, Seq<char>, Seq<char>, Seq<char>, Seq<char>),
> {
    v.map_values(
        |a: Achievement| (a.name@, a.display_name@, a.description@, a.hidden@, a.icon@, a.icongray@),
    )
}

/// Builds the emulator's achievements from the API names and the community
/// page's rows, merged by list order.
pub fn get_achievements(names: &Vec<String>, rows: &Vec<CommunityAchRow>) -> (r: Vec<Achievement>)
    ensures
        r@.len() == if names@.len() < rows@.len() {
            names@.len()
        } else {
            rows@.len()
        },
        forall|i: int|
            0 <= i < r@.len() ==> #[trigger] achievements_view(r@)[i] == spec_achievement(
                names@[i]@,
                rows_view(rows@)[i],
            ),
        forall|i: int|
            #![trigger r@[i]]
            0 <= i < r@.len() ==> {
                &&& r@[i].name@ == names@[i]@
                &&& r@[i].display_name@ == rows@[i].display_name@
                &&& r@[i].description@ == rows@[i].description@
                &&& r@[i].hidden@ == "0"@
                &&& r@[i].icon@ == rows@[i].icon@
                &&& r@[i].icongray@ == rows@[i].icon@
            },
{
    let n = if names.len() < rows.len() {
        names.len()
    } else {
        rows.len()
    };
    let mut out: Vec<Achievement> = Vec::new();
    let mut i: usize = 0;
    while i < n
        invariant
            i <= n,
            n <= names.len(),
            n <= rows.len(),
            out@.len() == i,
            forall|j: int|
                0 <= j < i ==> #[trigger] achievements_view(out@)[j] == spec_achievement(
                    names@[j]@,
                    rows_view(rows@)[j],
                ),
        decreases n - i,
    {
        let row = &rows[i];
        proof {
            reveal_strlit("0");
        }
        let a = Achievement {
            name: names[i].clone(),
            display_name: row.display_name.clone(),
            description: row.description.clone(),
            hidden: String::from_str("0"),
            icon: row.icon.clone(),
            icongray: row.icon.clone(),
        };
        let ghost before = out@;
        out.push(a);
        proof {
            assert forall|j: int| 0 <= j < i + 1 implies #[trigger] achievements_view(out@)[j]
                == spec_achievement(names@[j]@, rows_view(rows@)[j]) by {
                if j < i {
                    assert(out@[j] == before[j]);
                    assert(achievements_view(out@)[j] == achievements_view(before)[j]);
                } else {
                    assert(rows_view(rows@)[j] == (rows@[j].icon@, rows@[j].display_name@, rows@[j].description@));
                }
            }
        }
        i = i + 1;
    }
    proof {
        assert forall|i: int| #![trigger out@[i]] 0 <= i < out@.len() implies {
            &&& out@[i].name@ == names@[i]@
            &&& out@[i].display_name@ == rows@[i].display_name@
            &&& out@[i].description@ == rows@[i].description@
            &&& out@[i].hidden@ == "0"@
            &&& out@[i].icon@ == rows@[i].icon@
            &&& out@[i].icongray@ == rows@[i].icon@
        } by {
            assert(achievements_view(out@)[i] == spec_achievement(names@[i]@, rows_view(rows@)[i]));
            law_achievement_takes_row_texts(names@[i]@, rows@[i]);
        }
    }
    out
}

/// An achievement takes its display name from the community row's title
/// (`<h3>`), its description from the row's description (`<h5>`), both
/// icons from the row's icon, its name from the API name, and is not
/// hidden.
pub proof fn law_achievement_takes_row_texts(name: Seq<char>, row: CommunityAchRow)
    ensures
        ({
            let a = spec_achievement(name, (row.icon@, row.display_name@, row.description@));
            &&& a.0 == name
            &&& a.1 == row.display_name@
            &&& a.2 == row.description@
            &&& a.3 == "0"@
            &&& a.4 == row.icon@
            &&& a.5 == row.icon@
        }),
{
}

} // verus!
