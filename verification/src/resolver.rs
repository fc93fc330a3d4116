//! The order in which queued workshop items get their names: GGNetwork is
//! asked about each new item first; results whose names are still weak
//! wait for `GetPublishedFileDetails`, asked in batches; results still weak
//! after that wait for the item's Steam page, read one at a time. Store
//! names of games are remembered by App ID so that each is looked up once.
//!
//! The resolver only decides; the program performs each piece of work it
//! hands out and gives the results back.

use vstd::prelude::*;
use std::collections::{HashMap, VecDeque};
use crate::models::GgItemResponse;
use crate::session::{game_name_needed, needs_game_name, polish_names, spec_polish_names, WorkerMsg};
use crate::workshop::{is_weak, spec_is_weak, PUBLISHED_FILE_BATCH};

verus! {

broadcast use {
    vstd::std_specs::hash::group_hash_axioms,
    vstd::std_specs::vecdeque::group_vec_dequeue_axioms,
    vstd::string::group_string_axioms,
};

/// An item on its way through resolution: the names and App ID found so
/// far, GGNetwork's answer, and whether GGNetwork has the item cached.
#[derive(Debug)]
pub struct ResolveEntry {
    pub workshop_id: u64,
    pub mod_name: String,
    pub game_name: String,
    pub game_app_id: u32,
    pub gg_item: Option<GgItemResponse>,
    pub gg_available: bool,
}

/// The source a result came from.
#[derive(Clone, Copy, PartialEq, Eq, Structural, Debug)]
pub enum Stage {
    /// GGNetwork's answer.
    Gg,
    /// `GetPublishedFileDetails`.
    Api,
    /// The item's Steam page.
    Page,
}

/// The next piece of work.
#[derive(Debug)]
pub enum Work {
    /// Ask GGNetwork about this item.
    Gg(u64),
    /// Ask `GetPublishedFileDetails` about these results at once.
    Api(Vec<ResolveEntry>),
    /// Read the Steam page of this result's item.
    Page(ResolveEntry),
    /// Nothing is waiting: wait for the next item.
    Idle,
}

/// The items waiting at each stage, and the store names of games seen so
/// far.
pub struct Resolver {
    pending: VecDeque<u64>,
    api_queue: VecDeque<ResolveEntry>,
    page_queue: VecDeque<ResolveEntry>,
    game_names: HashMap<u32, String>,
}

/// The number of results in the next `GetPublishedFileDetails` batch.
pub open spec fn batch_len(waiting: nat) -> nat {
    if waiting < PUBLISHED_FILE_BATCH as nat {
        waiting
    } else {
        PUBLISHED_FILE_BATCH as nat
    }
}

/// The store name of a game to use: the one remembered for its App ID,
/// else the one just looked up (when any).
pub open spec fn known_name(names: Map<u32, String>, app: u32, fetched: Option<String>) -> Option<
    Seq<char>,
> {
    if names.contains_key(app) {
        Some(names[app]@)
    } else {
        match fetched {
            Some(f) => Some(f@),
            None => None,
        }
    }
}

/// The remembered names after a result: a name just looked up for a game
/// still known only by placeholder, and not remembered yet, is remembered.
pub open spec fn names_after(names: Map<u32, String>, entry: ResolveEntry, fetched: Option<String>) -> Map<
    u32,
    String,
> {
    if needs_game_name(entry.game_app_id, entry.game_name@) && !names.contains_key(entry.game_app_id)
        && fetched is Some {
        names.insert(entry.game_app_id, fetched.unwrap())
    } else {
        names
    }
}

/// A result's names after polishing with the remembered and the looked-up
/// store names.
pub open spec fn polished(names: Map<u32, String>, entry: ResolveEntry, fetched: Option<String>) -> (
    Seq<char>,
    Seq<char>,
) {
    spec_polish_names(
        entry.workshop_id as nat,
        entry.mod_name@,
        entry.game_name@,
        entry.game_app_id,
        entry.gg_item,
        known_name(names, entry.game_app_id, fetched),
    )
}

/// `e` is `from` with these names.
pub open spec fn carries(e: ResolveEntry, from: ResolveEntry, names: (Seq<char>, Seq<char>)) -> bool {
    &&& e.workshop_id == from.workshop_id
    &&& e.mod_name@ == names.0
    &&& e.game_name@ == names.1
    &&& e.game_app_id == from.game_app_id
    &&& e.gg_item == from.gg_item
    &&& e.gg_available == from.gg_available
}

/// `msg` reports `from` with these names to the window.
pub open spec fn reports(msg: WorkerMsg, from: ResolveEntry, names: (Seq<char>, Seq<char>)) -> bool {
    &&& msg matches WorkerMsg::WorkshopQueueInfo {
        workshop_id,
        mod_name,
        game_name,
        game_app_id,
        gg_item,
        gg_available,
    }
    &&& workshop_id == from.workshop_id
    &&& mod_name@ == names.0
    &&& game_name@ == names.1
    &&& game_app_id == from.game_app_id
    &&& gg_item == from.gg_item
    &&& gg_available == from.gg_available
}

impl Resolver {
    /// Items waiting for GGNetwork, oldest first.
    pub closed spec fn pending(&self) -> Seq<u64> {
        self.pending@
    }

    /// Results waiting for `GetPublishedFileDetails`, oldest first.
    pub closed spec fn api_waiting(&self) -> Seq<ResolveEntry> {
        self.api_queue@
    }

    /// Results waiting for their Steam page, oldest first.
    pub closed spec fn page_waiting(&self) -> Seq<ResolveEntry> {
        self.page_queue@
    }

    /// The store names of games, by App ID.
    pub closed spec fn game_names(&self) -> Map<u32, String> {
        self.game_names@
    }

    /// Nothing waits at any stage.
    pub open spec fn spec_is_idle(&self) -> bool {
        self.pending().len() == 0 && self.api_waiting().len() == 0 && self.page_waiting().len() == 0
    }

    /// A resolver with nothing waiting and no names remembered.
    pub fn new() -> (r: Self)
        ensures
            r.pending() == Seq::<u64>::empty(),
            r.api_waiting() == Seq::<ResolveEntry>::empty(),
            r.page_waiting() == Seq::<ResolveEntry>::empty(),
            r.game_names() == Map::<u32, String>::empty(),
    {
        Resolver {
            pending: VecDeque::new(),
            api_queue: VecDeque::new(),
            page_queue: VecDeque::new(),
            game_names: HashMap::new(),
        }
    }

    /// Puts an item behind the others waiting for GGNetwork.
    pub fn submit(&mut self, workshop_id: u64)
        ensures
            final(self).pending() == old(self).pending().push(workshop_id),
            final(self).api_waiting() == old(self).api_waiting(),
            final(self).page_waiting() == old(self).page_waiting(),
            final(self).game_names() == old(self).game_names(),
    {
        self.pending.push_back(workshop_id);
    }

    /// Whether nothing waits at any stage.
    pub fn is_idle(&self) -> (r: bool)
        ensures
            r == self.spec_is_idle(),
    {
        self.pending.len() == 0 && self.api_queue.len() == 0 && self.page_queue.len() == 0
    }

    /// Takes the next piece of work: a new item for GGNetwork first; else
    /// the oldest weak results, at most `PUBLISHED_FILE_BATCH` of them, for
    /// `GetPublishedFileDetails`; else the oldest result for its Steam
    /// page; else nothing.
    pub fn next_work(&mut self) -> (w: Work)
        ensures
            final(self).game_names() == old(self).game_names(),
            old(self).pending().len() > 0 ==> {
                &&& w == Work::Gg(old(self).pending()[0])
                &&& final(self).pending() == old(self).pending().drop_first()
                &&& final(self).api_waiting() == old(self).api_waiting()
                &&& final(self).page_waiting() == old(self).page_waiting()
            },
            old(self).pending().len() == 0 && old(self).api_waiting().len() > 0 ==> {
                let n = batch_len(old(self).api_waiting().len()) as int;
                &&& w matches Work::Api(batch) && batch@ == old(self).api_waiting().take(n)
                    && 0 < batch@.len() <= PUBLISHED_FILE_BATCH
                &&& final(self).pending() == old(self).pending()
                &&& final(self).api_waiting() == old(self).api_waiting().skip(n)
                &&& final(self).page_waiting() == old(self).page_waiting()
            },
            old(self).pending().len() == 0 && old(self).api_waiting().len() == 0
                && old(self).page_waiting().len() > 0 ==> {
                &&& w == Work::Page(old(self).page_waiting()[0])
                &&& final(self).pending() == old(self).pending()
                &&& final(self).api_waiting() == old(self).api_waiting()
                &&& final(self).page_waiting() == old(self).page_waiting().drop_first()
            },
            old(self).spec_is_idle() ==> {
                &&& w == Work::Idle
                &&& final(self).pending() == old(self).pending()
                &&& final(self).api_waiting() == old(self).api_waiting()
                &&& final(self).page_waiting() == old(self).page_waiting()
            },
    {
        match self.pending.pop_front() {
            Some(id) => {
                return Work::Gg(id);
            },
            None => {},
        }
        if self.api_queue.len() > 0 {
            let waiting = self.api_queue.len();
            let n = if waiting < PUBLISHED_FILE_BATCH {
                waiting
            } else {
                PUBLISHED_FILE_BATCH
            };
            let ghost start = self.api_queue@;
            let mut batch: Vec<ResolveEntry> = Vec::new();
            let mut i: usize = 0;
            while i < n
                invariant
                    n <= start.len(),
                    i <= n,
                    batch@ == start.take(i as int),
                    self.api_queue@ == start.skip(i as int),
                    self.pending@ == old(self).pending@,
                    self.page_queue@ == old(self).page_queue@,
                    self.game_names@ == old(self).game_names@,
                decreases n - i,
            {
                match self.api_queue.pop_front() {
                    Some(e) => {
                        proof {
                            assert(start.take(i + 1) == start.take(i as int).push(start[i as int]));
                            assert(start.skip(i as int).subrange(1, start.skip(i as int).len() as int)
                                == start.skip(i + 1));
                        }
                        batch.push(e);
                    },
                    None => {},
                }
                i = i + 1;
            }
            return Work::Api(batch);
        }
        match self.page_queue.pop_front() {
            Some(e) => Work::Page(e),
            None => Work::Idle,
        }
    }

    /// The App ID whose store name is to be looked up before `entry` is
    /// settled: its game is known only by placeholder and its name is not
    /// remembered yet.
    pub fn lookup_wanted(&self, entry: &ResolveEntry) -> (r: Option<u32>)
        ensures
            r == (if needs_game_name(entry.game_app_id, entry.game_name@)
                && !self.game_names().contains_key(entry.game_app_id) {
                Some(entry.game_app_id)
            } else {
                None
            }),
    {
        if game_name_needed(entry.game_app_id, entry.game_name.as_str()) {
            match self.game_names.get(&entry.game_app_id) {
                Some(_) => None,
                None => Some(entry.game_app_id),
            }
        } else {
            None
        }
    }

    /// Settles a result from `stage` (`fetched`: the store name looked up
    /// for `lookup_wanted`, if any): its names are polished; a result still
    /// weak after GGNetwork waits for `GetPublishedFileDetails`, one still
    /// weak after that waits for its Steam page; any other result, and
    /// every result of a Steam page, is reported to the window.
    pub fn settle(&mut self, stage: Stage, entry: ResolveEntry, fetched: Option<String>) -> (r: Option<
        WorkerMsg,
    >)
        ensures
            ({
                let p = polished(old(self).game_names(), entry, fetched);
                let weak = spec_is_weak(entry.workshop_id as nat, p.0, p.1);
                &&& final(self).game_names() == names_after(old(self).game_names(), entry, fetched)
                &&& final(self).pending() == old(self).pending()
                &&& stage == Stage::Gg && weak ==> {
                    &&& r is None
                    &&& final(self).api_waiting().len() == old(self).api_waiting().len() + 1
                    &&& final(self).api_waiting().drop_last() == old(self).api_waiting()
                    &&& carries(final(self).api_waiting().last(), entry, p)
                    &&& final(self).page_waiting() == old(self).page_waiting()
                }
                &&& stage == Stage::Api && weak ==> {
                    &&& r is None
                    &&& final(self).api_waiting() == old(self).api_waiting()
                    &&& final(self).page_waiting().len() == old(self).page_waiting().len() + 1
                    &&& final(self).page_waiting().drop_last() == old(self).page_waiting()
                    &&& carries(final(self).page_waiting().last(), entry, p)
                }
                &&& stage == Stage::Page || !weak ==> {
                    &&& r matches Some(msg) && reports(msg, entry, p)
                    &&& final(self).api_waiting() == old(self).api_waiting()
                    &&& final(self).page_waiting() == old(self).page_waiting()
                }
            }),
    {
        let ghost names = self.game_names@;
        let ResolveEntry { workshop_id, mod_name, game_name, game_app_id, gg_item, gg_available } =
            entry;
        let needed = game_name_needed(game_app_id, game_name.as_str());
        let known: Option<String> = match self.game_names.get(&game_app_id) {
            Some(n) => Some(n.clone()),
            None => match fetched {
                Some(f) => {
                    if needed {
                        self.game_names.insert(game_app_id, f.clone());
                    }
                    Some(f)
                },
                None => None,
            },
        };
        let (m, g) = polish_names(workshop_id, mod_name, game_name, game_app_id, &gg_item, known);
        let weak = is_weak(workshop_id, m.as_str(), g.as_str());
        if weak && stage == Stage::Gg {
            self.api_queue.push_back(
                ResolveEntry {
                    workshop_id,
                    mod_name: m,
                    game_name: g,
                    game_app_id,
                    gg_item,
                    gg_available,
                },
            );
            None
        } else if weak && stage == Stage::Api {
            self.page_queue.push_back(
                ResolveEntry {
                    workshop_id,
                    mod_name: m,
                    game_name: g,
                    game_app_id,
                    gg_item,
                    gg_available,
                },
            );
            None
        } else {
            Some(
                WorkerMsg::WorkshopQueueInfo {
                    workshop_id,
                    mod_name: m,
                    game_name: g,
                    game_app_id,
                    gg_item,
                    gg_available,
                },
            )
        }
    }
}

/// Once a result has brought the store name of a game known only by
/// placeholder, that name is remembered: no later result of the same game
/// asks for it again.
pub proof fn law_game_name_looked_up_once(
    names: Map<u32, String>,
    entry: ResolveEntry,
    fetched: String,
    later: ResolveEntry,
)
    requires
        needs_game_name(entry.game_app_id, entry.game_name@),
        later.game_app_id == entry.game_app_id,
    ensures
        names_after(names, entry, Some(fetched)).contains_key(later.game_app_id),
{
}

} // verus!
