//! The list of games set up with GoldbergDrop, most recently used first.

use vstd::prelude::*;

verus! {

broadcast use vstd::string::group_string_axioms;

/// A game set up with GoldbergDrop.
#[derive(Debug, Clone)]
pub struct TrackedGame {
    pub app_id: u32,
    pub name: String,
    pub exe_path: String,
    /// The cached icon, when it could be extracted.
    pub icon_path: Option<String>,
}

/// A game as values: app id, name, executable, icon.
pub type GameView = (u32, Seq<char>, Seq<char>, Option<Seq<char>>);

/// An optional string as an optional sequence.
pub open spec fn opt_str(o: Option<String>) -> Option<Seq<char>> {
    match o {
        Some(s) => Some(s@),
        None => None,
    }
}

/// The games as values.
pub open spec fn games_view(v: Seq<TrackedGame>) -> Seq<GameView> {
    v.map_values(|g: TrackedGame| (g.app_id, g.name@, g.exe_path@, opt_str(g.icon_path)))
}

/// Index of the first game with `app_id`.
pub open spec fn index_of(games: Seq<GameView>, app_id: u32) -> Option<int> {
    if exists|i: int| 0 <= i < games.len() && games[i].0 == app_id {
        Some(
            choose|i: int|
                0 <= i < games.len() && games[i].0 == app_id && forall|j: int|
                    0 <= j < i ==> #[trigger] games[j].0 != app_id,
        )
    } else {
        None
    }
}

/// The list after a game was set up: the game's entry (updated in place of
/// the first entry with its app id, keeping the old icon when no new one was
/// extracted, or new) moved to the front.
pub open spec fn spec_track(
    games: Seq<GameView>,
    exe_path: Seq<char>,
    app_id: u32,
    name: Seq<char>,
    icon: Option<Seq<char>>,
) -> Seq<GameView> {
    match index_of(games, app_id) {
        Some(i) => seq![
            (app_id, name, exe_path, if icon is Some {
                icon
            } else {
                games[i].3
            }),
        ] + games.remove(i),
        None => seq![(app_id, name, exe_path, icon)] + games,
    }
}

/// Records a game after a successful setup and moves it to the front.
#[verifier::loop_isolation(false)]
pub fn track(
    games: Vec<TrackedGame>,
    exe_path: &str,
    app_id: u32,
    name: &str,
    icon_path: Option<String>,
) -> (r: Vec<TrackedGame>)
    ensures
        games_view(r@) == spec_track(games_view(games@), exe_path@, app_id, name@, opt_str(icon_path)),
{
    let mut games = games;
    let ghost gv = games_view(games@);
    let mut i: usize = 0;
    while i < games.len()
        invariant
            i <= games.len(),
            gv == games_view(games@),
            forall|j: int| 0 <= j < i ==> #[trigger] gv[j].0 != app_id,
        decreases games.len() - i,
    {
        if games[i].app_id == app_id {
            proof {
                let w = choose|m: int|
                    0 <= m < gv.len() && gv[m].0 == app_id && forall|j: int|
                        0 <= j < m ==> #[trigger] gv[j].0 != app_id;
                assert(gv[i as int].0 == app_id);
                if w < i {
                    assert(gv[w].0 != app_id);
                } else if w > i {
                    assert(gv[i as int].0 != app_id);
                }
                assert(index_of(gv, app_id) == Some(i as int));
            }
            let old_game = games.remove(i);
            let icon = match icon_path {
                Some(p) => Some(p),
                None => old_game.icon_path,
            };
            let g = TrackedGame {
                app_id,
                name: String::from_str(name),
                exe_path: String::from_str(exe_path),
                icon_path: icon,
            };
            let ghost rest = games@;
            games.insert(0, g);
            proof {
                assert(games_view(rest) =~= gv.remove(i as int));
                assert(games_view(games@) =~= seq![games_view(games@)[0]] + games_view(rest));
            }
            return games;
        }
        i = i + 1;
    }
    proof {
        assert(index_of(gv, app_id) is None);
    }
    let g = TrackedGame {
        app_id,
        name: String::from_str(name),
        exe_path: String::from_str(exe_path),
        icon_path,
    };
    games.insert(0, g);
    proof {
        assert(games_view(games@) =~= seq![games_view(games@)[0]] + gv);
    }
    games
}

/// A game with another app id than `app_id`.
pub open spec fn other_app(app_id: u32) -> spec_fn(GameView) -> bool {
    |g: GameView| g.0 != app_id
}

/// The list without the games with `app_id`.
pub open spec fn spec_remove(games: Seq<GameView>, app_id: u32) -> Seq<GameView> {
    games.filter(other_app(app_id))
}

/// Removes a game from the list.
pub fn remove(games: &Vec<TrackedGame>, app_id: u32) -> (r: Vec<TrackedGame>)
    ensures
        games_view(r@) == spec_remove(games_view(games@), app_id),
{
    let ghost gv = games_view(games@);
    let mut out: Vec<TrackedGame> = Vec::new();
    let mut i: usize = 0;
    while i < games.len()
        invariant
            i <= games.len(),
            gv == games_view(games@),
            games_view(out@) == spec_remove(gv.take(i as int), app_id),
        decreases games.len() - i,
    {
        let g = &games[i];
        proof {
            assert(gv.take(i + 1).drop_last() =~= gv.take(i as int));
            assert(gv.take(i + 1).last() == gv[i as int]);
            gv.take(i as int).lemma_filter_push(gv[i as int], other_app(app_id));
            assert(gv.take(i as int).push(gv[i as int]) =~= gv.take(i + 1));
        }
        if g.app_id != app_id {
            let ghost before = out@;
            out.push(
                TrackedGame {
                    app_id: g.app_id,
                    name: g.name.clone(),
                    exe_path: g.exe_path.clone(),
                    icon_path: match &g.icon_path {
                        Some(p) => Some(p.clone()),
                        None => None,
                    },
                },
            );
            assert(games_view(out@) =~= games_view(before).push(gv[i as int]));
        }
        i = i + 1;
    }
    assert(gv.take(games.len() as int) =~= gv);
    out
}

/// The app ids of a list occur once each.
pub open spec fn ids_distinct(games: Seq<GameView>) -> bool {
    forall|i: int, j: int| 0 <= i < j < games.len() ==> games[i].0 != games[j].0
}

/// A tracked game comes first; a list whose app ids are distinct keeps them
/// distinct and loses no other game; removing a game leaves none with its
/// app id.
pub proof fn law_track_moves_to_front(
    games: Seq<GameView>,
    exe_path: Seq<char>,
    app_id: u32,
    name: Seq<char>,
    icon: Option<Seq<char>>,
)
    requires
        ids_distinct(games),
    ensures
        spec_track(games, exe_path, app_id, name, icon)[0].0 == app_id,
        spec_track(games, exe_path, app_id, name, icon)[0].1 == name,
        ids_distinct(spec_track(games, exe_path, app_id, name, icon)),
        forall|g: GameView|
            games.contains(g) && g.0 != app_id ==> #[trigger] spec_track(
                games,
                exe_path,
                app_id,
                name,
                icon,
            ).contains(g),
        forall|g: GameView| #[trigger] spec_remove(games, app_id).contains(g) ==> g.0 != app_id,
{
    let t = spec_track(games, exe_path, app_id, name, icon);
    match index_of(games, app_id) {
        Some(i) => {
            let rest = games.remove(i);
            assert forall|a: int, b: int| 0 <= a < b < t.len() implies t[a].0 != t[b].0 by {
                if a == 0 {
                    let bb = b - 1;
                    if bb < i {
                        assert(rest[bb] == games[bb]);
                        assert(games[bb].0 != games[i].0);
                    } else {
                        assert(rest[bb] == games[bb + 1]);
                        assert(games[bb + 1].0 != games[i].0);
                    }
                } else {
                    let aa = a - 1;
                    let bb = b - 1;
                    let ga = if aa < i { aa } else { aa + 1 };
                    let gb = if bb < i { bb } else { bb + 1 };
                    assert(rest[aa] == games[ga]);
                    assert(rest[bb] == games[gb]);
                }
            }
            assert forall|g: GameView| games.contains(g) && g.0 != app_id implies #[trigger] t.contains(g) by {
                let k = choose|k: int| 0 <= k < games.len() && games[k] == g;
                assert(k != i);
                if k < i {
                    assert(t[k + 1] == g);
                } else {
                    assert(t[k] == g);
                }
            }
        },
        None => {
            assert forall|a: int, b: int| 0 <= a < b < t.len() implies t[a].0 != t[b].0 by {
                if a == 0 {
                    assert(t[b] == games[b - 1]);
                    assert(games[b - 1].0 != app_id);
                }
            }
            assert forall|g: GameView| games.contains(g) && g.0 != app_id implies #[trigger] t.contains(g) by {
                let k = choose|k: int| 0 <= k < games.len() && games[k] == g;
                assert(t[k + 1] == g);
            }
        },
    }
    assert forall|g: GameView| #[trigger] spec_remove(games, app_id).contains(g) implies g.0 != app_id by {
        games.lemma_filter_contains_rev(other_app(app_id), g);
    }
}

/// A list with no game of `app_id` loses nothing by filtering it out.
proof fn lemma_filter_keeps_others(games: Seq<GameView>, app_id: u32)
    requires
        forall|k: int| 0 <= k < games.len() ==> #[trigger] games[k].0 != app_id,
    ensures
        spec_remove(games, app_id) == games,
    decreases games.len(),
{
    if games.len() > 0 {
        let init = games.drop_last();
        assert forall|k: int| 0 <= k < init.len() implies #[trigger] init[k].0 != app_id by {
            assert(init[k] == games[k]);
        }
        lemma_filter_keeps_others(init, app_id);
        init.lemma_filter_push(games.last(), other_app(app_id));
        assert(init.push(games.last()) =~= games);
    }
}

/// With its app id once in the list, removing the game at `i` is the same
/// as filtering its app id out.
proof fn lemma_remove_is_filter(games: Seq<GameView>, i: int)
    requires
        ids_distinct(games),
        0 <= i < games.len(),
    ensures
        games.remove(i) == spec_remove(games, games[i].0),
{
    let id = games[i].0;
    let a = games.take(i);
    let b = games.skip(i + 1);
    assert forall|k: int| 0 <= k < a.len() implies #[trigger] a[k].0 != id by {
        assert(a[k] == games[k]);
    }
    assert forall|k: int| 0 <= k < b.len() implies #[trigger] b[k].0 != id by {
        assert(b[k] == games[i + 1 + k]);
    }
    lemma_filter_keeps_others(a, id);
    lemma_filter_keeps_others(b, id);
    Seq::<GameView>::empty().lemma_filter_push(games[i], other_app(id));
    assert(Seq::<GameView>::empty().filter(other_app(id)) =~= Seq::<GameView>::empty()) by {
        reveal(Seq::filter);
    }
    assert(Seq::<GameView>::empty().push(games[i]) =~= seq![games[i]]);
    Seq::filter_distributes_over_add(a, seq![games[i]], other_app(id));
    Seq::filter_distributes_over_add(a + seq![games[i]], b, other_app(id));
    assert(a + seq![games[i]] + b =~= games);
    assert(games.remove(i) =~= a + b);
}

/// Recording a game puts it first, with the name and executable given and
/// the icon given (or, with none given, the icon it had); after it comes
/// the rest of the list without that app id, in its order. So recording
/// the game that is already first leaves the rest of the list alone. (A
/// list holding an app id twice keeps the later copy, so the list's ids
/// are required distinct.)
pub proof fn law_track_front_then_rest(
    games: Seq<GameView>,
    exe_path: Seq<char>,
    app_id: u32,
    name: Seq<char>,
    icon: Option<Seq<char>>,
)
    requires
        ids_distinct(games),
    ensures
        ({
            let t = spec_track(games, exe_path, app_id, name, icon);
            &&& t[0] == (app_id, name, exe_path, if icon is Some {
                icon
            } else {
                match index_of(games, app_id) {
                    Some(i) => games[i].3,
                    None => None,
                }
            })
            &&& t.drop_first() == spec_remove(games, app_id)
            &&& games.len() > 0 && games[0].0 == app_id ==> t.drop_first() == games.drop_first()
        }),
{
    let t = spec_track(games, exe_path, app_id, name, icon);
    match index_of(games, app_id) {
        Some(i) => {
            lemma_remove_is_filter(games, i);
            assert(t.drop_first() =~= games.remove(i));
            if games.len() > 0 && games[0].0 == app_id {
                assert(i == 0) by {
                    if i > 0 {
                        assert(games[0].0 != app_id);
                    }
                }
                assert(games.remove(0) =~= games.drop_first());
            }
        },
        None => {
            assert forall|k: int| 0 <= k < games.len() implies #[trigger] games[k].0 != app_id by {
                if games[k].0 == app_id {
                    assert(exists|j: int| 0 <= j < games.len() && games[j].0 == app_id);
                }
            }
            lemma_filter_keeps_others(games, app_id);
            assert(t.drop_first() =~= games);
        },
    }
}

} // verus!
