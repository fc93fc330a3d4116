//! The workshop download queue: items are queued with placeholder names,
//! resolved, downloaded one at a time, and end done or failed; and the
//! choice between GGNetwork and SteamCMD for each item.

use vstd::prelude::*;
use crate::greenluma::{app_label, app_label_string};
use crate::models::{GgItemResponse, QueueItem, QueueStatus};
use crate::settings::AppSettings;
use crate::text::{chars_of, parse_uint, string_of, trim};
use crate::workshop::item_label;

verus! {

broadcast use vstd::string::group_string_axioms;

/// The name shown while an item is being resolved.
pub open spec fn loading() -> Seq<char> {
    "…"@
}

/// A status as values: its kind (0 queued, 1 downloading, 2 done, 3
/// failed) and the failure's message.
pub open spec fn status_view(s: QueueStatus) -> (int, Seq<char>) {
    match s {
        QueueStatus::Queued => (0, seq![]),
        QueueStatus::Downloading => (1, seq![]),
        QueueStatus::Done => (2, seq![]),
        QueueStatus::Failed(e) => (3, e@),
    }
}

/// An item as values: workshop id, mod name, game app id, game name,
/// status, whether GGNetwork has it, where it was saved.
pub type ItemView = (u64, Seq<char>, u32, Seq<char>, (int, Seq<char>), Option<bool>, Option<Seq<char>>);

pub open spec fn item_view(i: QueueItem) -> ItemView {
    (
        i.workshop_id,
        i.mod_name@,
        i.game_app_id,
        i.game_name@,
        status_view(i.status),
        i.gg_available,
        match i.download_path {
            Some(p) => Some(p@),
            None => None,
        },
    )
}

/// The queue as values.
pub open spec fn queue_view(v: Seq<QueueItem>) -> Seq<ItemView> {
    v.map_values(|i: QueueItem| item_view(i))
}

/// GGNetwork's answers kept with the items.
pub open spec fn gg_items(v: Seq<QueueItem>) -> Seq<Option<GgItemResponse>> {
    v.map_values(|i: QueueItem| i.gg_item)
}

/// What hovering an item's status says: a queued item GGNetwork has no
/// copy of says so; otherwise the status, or a failure's message.
pub open spec fn status_hint(it: ItemView) -> Seq<char> {
    if it.4.0 == 0 && it.5 == Some(false) {
        "Not available on GGNetwork"@
    } else if it.4.0 == 0 {
        "Queued"@
    } else if it.4.0 == 1 {
        "Downloading"@
    } else if it.4.0 == 2 {
        "Done"@
    } else {
        it.4.1
    }
}

/// The button at the end of an item's row.
#[derive(Clone, Copy, PartialEq, Eq, Structural, Debug)]
pub enum RowButton {
    /// Nothing (while downloading, or done with no folder known).
    Nothing,
    /// Open the folder the item was saved to.
    OpenFolder,
    /// Take the item off the queue.
    Remove,
}

/// The button of an item's row: a done item with a known folder opens it;
/// a queued or failed item can be taken off.
pub open spec fn spec_row_button(it: ItemView) -> RowButton {
    if it.4.0 == 2 && it.6 is Some {
        RowButton::OpenFolder
    } else if it.4.0 == 0 || it.4.0 == 3 {
        RowButton::Remove
    } else {
        RowButton::Nothing
    }
}

/// The text shown when hovering an item's status.
pub fn status_hint_text(item: &QueueItem) -> (r: String)
    ensures
        r@ == status_hint(item_view(*item)),
{
    match &item.status {
        QueueStatus::Queued => match item.gg_available {
            Some(false) => String::from_str("Not available on GGNetwork"),
            _ => String::from_str("Queued"),
        },
        QueueStatus::Downloading => String::from_str("Downloading"),
        QueueStatus::Done => String::from_str("Done"),
        QueueStatus::Failed(e) => e.clone(),
    }
}

/// The button at the end of an item's row.
pub fn row_button(item: &QueueItem) -> (r: RowButton)
    ensures
        r == spec_row_button(item_view(*item)),
{
    match &item.status {
        QueueStatus::Done => if item.download_path.is_some() {
            RowButton::OpenFolder
        } else {
            RowButton::Nothing
        },
        QueueStatus::Queued | QueueStatus::Failed(_) => RowButton::Remove,
        QueueStatus::Downloading => RowButton::Nothing,
    }
}

/// The workshop download queue.
pub struct DownloadQueue {
    pub items: Vec<QueueItem>,
}

/// Index of the first queued item.
pub open spec fn first_queued(q: Seq<ItemView>) -> Option<int> {
    if exists|i: int| 0 <= i < q.len() && q[i].4.0 == 0 {
        Some(
            choose|i: int|
                0 <= i < q.len() && q[i].4.0 == 0 && forall|j: int| 0 <= j < i ==> #[trigger] q[j].4.0 != 0,
        )
    } else {
        None
    }
}

/// The names a download starts with: placeholders become `App <id>` and
/// `Item <id>`.
pub open spec fn start_names(it: ItemView) -> (Seq<char>, Seq<char>) {
    (
        if it.1 == loading() {
            item_label(it.0 as nat)
        } else {
            it.1
        },
        if it.3 == loading() {
            app_label(it.2 as nat)
        } else {
            it.3
        },
    )
}

impl DownloadQueue {
    /// An empty queue.
    pub fn new() -> (r: Self)
        ensures
            r.items@.len() == 0,
    {
        DownloadQueue { items: Vec::new() }
    }

    /// Queues a workshop item with placeholder names, to be resolved.
    pub fn enqueue(&mut self, workshop_id: u64)
        ensures
            queue_view(final(self).items@) == queue_view(old(self).items@).push(
                (workshop_id, loading(), 0u32, loading(), (0, seq![]), None, None),
            ),
            gg_items(final(self).items@) == gg_items(old(self).items@).push(None),
    {
        let ghost before = self.items@;
        self.items.push(
            QueueItem {
                workshop_id,
                mod_name: String::from_str("…"),
                game_app_id: 0,
                game_name: String::from_str("…"),
                status: QueueStatus::Queued,
                gg_item: None,
                gg_available: None,
                download_path: None,
            },
        );
        assert(queue_view(self.items@) =~= queue_view(before).push(
            (workshop_id, loading(), 0u32, loading(), (0, seq![]), None, None),
        ));
        assert(gg_items(self.items@) =~= gg_items(before).push(None));
    }

    /// Some item still waits to be resolved (shows the placeholder name).
    pub fn lookup_pending(&self) -> (r: bool)
        ensures
            r == exists|i: int| 0 <= i < self.items@.len() && #[trigger] queue_view(self.items@)[i].1 == loading(),
    {
        let ghost qv = queue_view(self.items@);
        let l = chars_of("…");
        let mut i: usize = 0;
        while i < self.items.len()
            invariant
                i <= self.items.len(),
                qv == queue_view(self.items@),
                l@ == loading(),
                forall|j: int| 0 <= j < i ==> #[trigger] qv[j].1 != loading(),
            decreases self.items.len() - i,
        {
            assert(qv[i as int].1 == self.items@[i as int].mod_name@);
            if crate::text::eq_chars(&chars_of(self.items[i].mod_name.as_str()), &l) {
                return true;
            }
            i = i + 1;
        }
        false
    }

    /// The first queued item, if any.
    pub fn next_queued(&self) -> (r: Option<usize>)
        ensures
            r matches Some(i) ==> first_queued(queue_view(self.items@)) == Some(i as int) && i
                < self.items@.len() && queue_view(self.items@)[i as int].4.0 == 0,
            r is None ==> first_queued(queue_view(self.items@)) is None,
    {
        let ghost qv = queue_view(self.items@);
        let mut i: usize = 0;
        while i < self.items.len()
            invariant
                i <= self.items.len(),
                qv == queue_view(self.items@),
                forall|j: int| 0 <= j < i ==> #[trigger] qv[j].4.0 != 0,
            decreases self.items.len() - i,
        {
            let queued = match self.items[i].status {
                QueueStatus::Queued => true,
                _ => false,
            };
            assert(qv[i as int].4.0 == 0 <==> queued);
            if queued {
                proof {
                    let w = choose|k: int|
                        0 <= k < qv.len() && qv[k].4.0 == 0 && forall|j: int|
                            0 <= j < k ==> #[trigger] qv[j].4.0 != 0;
                    if w < i {
                        assert(qv[w].4.0 != 0);
                    } else if w > i {
                        assert(qv[i as int].4.0 != 0);
                    }
                }
                return Some(i);
            }
            i = i + 1;
        }
        None
    }

    /// Marks the item at `index` as downloading and gives what its download
    /// needs: workshop id, game app id, mod name and game name (placeholders
    /// replaced).
    pub fn start(&mut self, index: usize) -> (r: (u64, u32, String, String))
        requires
            index < old(self).items@.len(),
        ensures
            final(self).items@.len() == old(self).items@.len(),
            forall|j: int|
                0 <= j < old(self).items@.len() && j != index ==> #[trigger] queue_view(final(self).items@)[j]
                    == queue_view(old(self).items@)[j],
            ({
                let o = queue_view(old(self).items@)[index as int];
                queue_view(final(self).items@)[index as int] == (o.0, o.1, o.2, o.3, (1int, Seq::<char>::empty()), o.5, o.6)
            }),
            ({
                let o = queue_view(old(self).items@)[index as int];
                (r.0, r.1, r.2@, r.3@) == (o.0, o.2, start_names(o).0, start_names(o).1)
            }),
            gg_items(final(self).items@) == gg_items(old(self).items@),
    {
        let ghost before = self.items@;
        let mut it = self.items.remove(index);
        it.status = QueueStatus::Downloading;
        let wid = it.workshop_id;
        let gid = it.game_app_id;
        let l = chars_of("…");
        let m = if crate::text::eq_chars(&chars_of(it.mod_name.as_str()), &l) {
            let mut v = chars_of("Item ");
            crate::text::push_decimal(&mut v, wid);
            string_of(&v)
        } else {
            it.mod_name.clone()
        };
        let g = if crate::text::eq_chars(&chars_of(it.game_name.as_str()), &l) {
            app_label_string(gid as u64)
        } else {
            it.game_name.clone()
        };
        self.items.insert(index, it);
        proof {
            assert forall|j: int| 0 <= j < before.len() && j != index implies #[trigger] queue_view(
                self.items@,
            )[j] == queue_view(before)[j] by {
                assert(self.items@[j] == before[j]);
            }
            assert forall|j: int| 0 <= j < before.len() implies #[trigger] gg_items(self.items@)[j] == gg_items(
                before,
            )[j] by {
                if j != index {
                    assert(self.items@[j] == before[j]);
                }
            }
            assert(gg_items(self.items@) =~= gg_items(before));
        }
        (wid, gid, m, g)
    }

    /// Records a finished download at `index`: done, with the final names
    /// and where it was saved.
    pub fn finish_done(&mut self, index: usize, path: String, mod_name: String, game_name: String)
        requires
            index < old(self).items@.len(),
        ensures
            final(self).items@.len() == old(self).items@.len(),
            forall|j: int|
                0 <= j < old(self).items@.len() && j != index ==> #[trigger] queue_view(final(self).items@)[j]
                    == queue_view(old(self).items@)[j],
            ({
                let o = queue_view(old(self).items@)[index as int];
                queue_view(final(self).items@)[index as int] == (
                    o.0,
                    mod_name@,
                    o.2,
                    game_name@,
                    (2int, Seq::<char>::empty()),
                    o.5,
                    Some(path@),
                )
            }),
            gg_items(final(self).items@) == gg_items(old(self).items@),
    {
        let ghost before = self.items@;
        let mut it = self.items.remove(index);
        it.status = QueueStatus::Done;
        it.mod_name = mod_name;
        it.game_name = game_name;
        it.download_path = Some(path);
        self.items.insert(index, it);
        proof {
            assert forall|j: int| 0 <= j < before.len() && j != index implies #[trigger] queue_view(
                self.items@,
            )[j] == queue_view(before)[j] by {
                assert(self.items@[j] == before[j]);
            }
            assert forall|j: int| 0 <= j < before.len() implies #[trigger] gg_items(self.items@)[j] == gg_items(
                before,
            )[j] by {
                if j != index {
                    assert(self.items@[j] == before[j]);
                }
            }
            assert(gg_items(self.items@) =~= gg_items(before));
        }
    }

    /// Records a failed download at `index` with its error.
    pub fn finish_failed(&mut self, index: usize, error: String)
        requires
            index < old(self).items@.len(),
        ensures
            final(self).items@.len() == old(self).items@.len(),
            forall|j: int|
                0 <= j < old(self).items@.len() && j != index ==> #[trigger] queue_view(final(self).items@)[j]
                    == queue_view(old(self).items@)[j],
            ({
                let o = queue_view(old(self).items@)[index as int];
                queue_view(final(self).items@)[index as int] == (o.0, o.1, o.2, o.3, (3int, error@), o.5, o.6)
            }),
            gg_items(final(self).items@) == gg_items(old(self).items@),
    {
        let ghost before = self.items@;
        let mut it = self.items.remove(index);
        it.status = QueueStatus::Failed(error);
        self.items.insert(index, it);
        proof {
            assert forall|j: int| 0 <= j < before.len() && j != index implies #[trigger] queue_view(
                self.items@,
            )[j] == queue_view(before)[j] by {
                assert(self.items@[j] == before[j]);
            }
            assert forall|j: int| 0 <= j < before.len() implies #[trigger] gg_items(self.items@)[j] == gg_items(
                before,
            )[j] by {
                if j != index {
                    assert(self.items@[j] == before[j]);
                }
            }
            assert(gg_items(self.items@) =~= gg_items(before));
        }
    }
}

/// What to do with a queued item.
pub enum QueueDecision {
    /// Download from GGNetwork: the answer, and the mod and game names.
    Gg(GgItemResponse, String, String),
    /// Download with SteamCMD: the game's app id, the mod and game names,
    /// and GGNetwork's error when SteamCMD stands in for a failed GGNetwork
    /// attempt.
    SteamCmd(u32, String, String, Option<String>),
    /// Give up with this message.
    Fail(String),
}

/// The decision as values: kind (0 GGNetwork, 1 SteamCMD, 2 fail), app id,
/// two texts.
pub open spec fn decision_view(d: QueueDecision) -> (int, u32, Seq<char>, Seq<char>) {
    match d {
        QueueDecision::Gg(i, m, g) => (0, 0, m@, g@),
        QueueDecision::SteamCmd(a, m, g, _) => (1, a, m@, g@),
        QueueDecision::Fail(e) => (2, 0, e@, seq![]),
    }
}

/// The GGNetwork download's names and app id, or its error: the lookup
/// must have succeeded, the item be cached, and an app id be known (from
/// the answer, else the queue's); the names come from the item's page when
/// it could be read (game `App <id>` when it names none), else from the
/// answer (`Item <id>` when blank) with game `App <id>`.
pub open spec fn spec_gg_plan(
    workshop_id: u64,
    game_app_id: u32,
    gg: Result<GgItemResponse, Seq<char>>,
    page: Option<(Seq<char>, Option<Seq<char>>)>,
) -> Result<(Seq<char>, Seq<char>), Seq<char>> {
    match gg {
        Err(e) => Err(e),
        Ok(item) => if item.result != 1 {
            Err("Not available on GGNetwork"@)
        } else {
            let app = match parse_uint(item.game@, u32::MAX as nat) {
                Some(n) => n,
                None => game_app_id as nat,
            };
            if app == 0 {
                Err("Invalid game App ID from GGNetwork"@)
            } else {
                match page {
                    Some((m, g)) => Ok(
                        (
                            m,
                            match g {
                                Some(x) => x,
                                None => app_label(app),
                            },
                        ),
                    ),
                    None => Ok(
                        (
                            if trim(item.name@).len() == 0 {
                                item_label(workshop_id as nat)
                            } else {
                                item.name@
                            },
                            app_label(app),
                        ),
                    ),
                }
            }
        },
    }
}

/// What to do with a queued item: SteamCMD only when it is forced or
/// GGNetwork is off (failing when SteamCMD is off too); else GGNetwork,
/// falling back to SteamCMD (under the queue's names) when that is on and
/// needs no confirmation.
pub open spec fn spec_process_queue_item(
    workshop_id: u64,
    game_app_id: u32,
    mod_name: Seq<char>,
    game_name: Seq<char>,
    use_ggnetwork: bool,
    use_steamcmd: bool,
    ask_before_steamcmd: bool,
    force_steamcmd: bool,
    gg: Result<GgItemResponse, Seq<char>>,
    page: Option<(Seq<char>, Option<Seq<char>>)>,
) -> (int, u32, Seq<char>, Seq<char>) {
    if force_steamcmd || !use_ggnetwork {
        if !use_steamcmd {
            (2, 0, "No download providers enabled"@, seq![])
        } else {
            (1, game_app_id, mod_name, game_name)
        }
    } else {
        match spec_gg_plan(workshop_id, game_app_id, gg, page) {
            Ok((m, g)) => (0, 0, m, g),
            Err(e) => if use_steamcmd && !ask_before_steamcmd {
                (1, game_app_id, mod_name, game_name)
            } else {
                (2, 0, e, seq![])
            },
        }
    }
}

/// GGNetwork's error that a SteamCMD download stands in for: none when
/// SteamCMD is the only method used, else the error of the GGNetwork plan.
pub open spec fn spec_fallback_error(
    workshop_id: u64,
    game_app_id: u32,
    use_ggnetwork: bool,
    force_steamcmd: bool,
    gg: Result<GgItemResponse, Seq<char>>,
    page: Option<(Seq<char>, Option<Seq<char>>)>,
) -> Option<Seq<char>> {
    if force_steamcmd || !use_ggnetwork {
        None
    } else {
        match spec_gg_plan(workshop_id, game_app_id, gg, page) {
            Ok(_) => None,
            Err(e) => Some(e),
        }
    }
}

/// An optional text as values.
pub open spec fn opt_text(o: Option<String>) -> Option<Seq<char>> {
    match o {
        Some(t) => Some(t@),
        None => None,
    }
}

/// With GGNetwork in use and holding the item (cached, with a known
/// nonzero app id: its answer's, else the queue's), the item is downloaded
/// from GGNetwork: under the page's title and the page's game name when the
/// page names a game, `App <id>` only when it names none; with no page,
/// under GGNetwork's name (`Item <id>` when blank) and `App <id>`.
pub proof fn law_gg_download_names(
    workshop_id: u64,
    game_app_id: u32,
    mod_name: Seq<char>,
    game_name: Seq<char>,
    use_steamcmd: bool,
    ask_before_steamcmd: bool,
    item: GgItemResponse,
    page: Option<(Seq<char>, Option<Seq<char>>)>,
)
    requires
        item.result == 1,
        (match parse_uint(item.game@, u32::MAX as nat) {
            Some(n) => n,
            None => game_app_id as nat,
        }) != 0,
    ensures
        ({
            let app = match parse_uint(item.game@, u32::MAX as nat) {
                Some(n) => n,
                None => game_app_id as nat,
            };
            let d = spec_process_queue_item(
                workshop_id,
                game_app_id,
                mod_name,
                game_name,
                true,
                use_steamcmd,
                ask_before_steamcmd,
                false,
                Ok(item),
                page,
            );
            &&& d.0 == 0
            &&& page matches Some((title, Some(g))) ==> d.2 == title && d.3 == g
            &&& page matches Some((title, None)) ==> d.2 == title && d.3 == "App "@ + crate::text::decimal(app)
            &&& page is None ==> d.3 == "App "@ + crate::text::decimal(app) && d.2 == if trim(item.name@).len() == 0 {
                "Item "@ + crate::text::decimal(workshop_id as nat)
            } else {
                item.name@
            }
        }),
{
}

/// Decides how a queued item is downloaded, from the settings, GGNetwork's
/// lookup (`Err` with its message when it failed) and the item's page
/// (title and game name, `None` when it could not be read).
pub fn process_queue_item(
    workshop_id: u64,
    game_app_id: u32,
    mod_name: String,
    game_name: String,
    settings: &AppSettings,
    force_steamcmd: bool,
    gg: Result<GgItemResponse, String>,
    page: Option<(String, Option<String>)>,
) -> (r: QueueDecision)
    ensures
        decision_view(r) == spec_process_queue_item(
            workshop_id,
            game_app_id,
            mod_name@,
            game_name@,
            settings.use_ggnetwork,
            settings.use_steamcmd,
            settings.ask_before_steamcmd,
            force_steamcmd,
            match gg {
                Ok(i) => Ok(i),
                Err(e) => Err(e@),
            },
            match page {
                Some((m, g)) => Some(
                    (
                        m@,
                        match g {
                            Some(x) => Some(x@),
                            None => None,
                        },
                    ),
                ),
                None => None,
            },
        ),
        r matches QueueDecision::Gg(i, _, _) ==> gg matches Ok(j) && i == j,
        ({
            &&& settings.use_ggnetwork
            &&& !force_steamcmd
            &&& gg matches Ok(item)
            &&& item.result == 1
            &&& (match parse_uint(item.game@, u32::MAX as nat) {
                Some(n) => n,
                None => game_app_id as nat,
            }) != 0
            &&& page matches Some((_, Some(_)))
        }) ==> (r matches QueueDecision::Gg(_, m, g) && page matches Some((pm, Some(pg))) && m@ == pm@ && g@
            == pg@),
        r matches QueueDecision::SteamCmd(_, _, _, f) ==> opt_text(f) == spec_fallback_error(
            workshop_id,
            game_app_id,
            settings.use_ggnetwork,
            force_steamcmd,
            match gg {
                Ok(i) => Ok(i),
                Err(e) => Err(e@),
            },
            match page {
                Some((m, g)) => Some(
                    (
                        m@,
                        match g {
                            Some(x) => Some(x@),
                            None => None,
                        },
                    ),
                ),
                None => None,
            },
        ),
{
    if force_steamcmd || !settings.use_ggnetwork {
        if !settings.use_steamcmd {
            return QueueDecision::Fail(String::from_str("No download providers enabled"));
        }
        return QueueDecision::SteamCmd(game_app_id, mod_name, game_name, None);
    }
    let err: String = match gg {
        Err(e) => e,
        Ok(item) => {
            if item.result != 1 {
                String::from_str("Not available on GGNetwork")
            } else {
                let app: u32 = match item.game_app_id() {
                    Some(n) => n,
                    None => game_app_id,
                };
                if app == 0 {
                    String::from_str("Invalid game App ID from GGNetwork")
                } else {
                    let (m, g) = match page {
                        Some((m, g)) => (
                            m,
                            match g {
                                Some(x) => x,
                                None => app_label_string(app as u64),
                            },
                        ),
                        None => {
                            let blank = crate::text::trim_str(item.name.as_str()).as_str().is_empty();
                            let m = if blank {
                                let mut v = chars_of("Item ");
                                crate::text::push_decimal(&mut v, workshop_id);
                                string_of(&v)
                            } else {
                                item.name.clone()
                            };
                            (m, app_label_string(app as u64))
                        },
                    };
                    return QueueDecision::Gg(item, m, g);
                }
            }
        },
    };
    if settings.use_steamcmd && !settings.ask_before_steamcmd {
        QueueDecision::SteamCmd(game_app_id, mod_name, game_name, Some(err))
    } else {
        QueueDecision::Fail(err)
    }
}

/// After a GGNetwork download failed, SteamCMD is tried at once when it is
/// on and needs no confirmation.
pub fn retry_with_steamcmd(settings: &AppSettings) -> (r: bool)
    ensures
        r == (settings.use_steamcmd && !settings.ask_before_steamcmd),
{
    settings.use_steamcmd && !settings.ask_before_steamcmd
}

/// The message when both GGNetwork and SteamCMD failed.
pub fn combine_errors(gg_error: &str, steamcmd_error: &str) -> (r: String)
    ensures
        r@ == gg_error@ + "; SteamCMD: "@ + steamcmd_error@,
{
    let mut v = chars_of(gg_error);
    crate::text::extend_chars(&mut v, &chars_of("; SteamCMD: "));
    crate::text::extend_chars(&mut v, &chars_of(steamcmd_error));
    string_of(&v)
}

/// What follows a GGNetwork download.
pub enum AfterGg {
    /// Saved: the folder, the mod name and the game name.
    Saved(String, String, String),
    /// Try SteamCMD now: the queue's app id, mod name and game name, and
    /// GGNetwork's error.
    SteamCmd(u32, String, String, String),
    /// Failed with this message.
    Failed(String),
}

/// After the GGNetwork download of a queued item (`outcome`: the folder it
/// was saved to, or why the download folder or the download failed): a
/// success keeps GGNetwork's names (`gg_mod`, `gg_game`); a failure falls
/// back to SteamCMD under the queue's app id and names when SteamCMD is on
/// and needs no confirmation, else ends with that failure.
pub fn after_gg_download(
    game_app_id: u32,
    mod_name: String,
    game_name: String,
    settings: &AppSettings,
    gg_mod: String,
    gg_game: String,
    outcome: Result<String, String>,
) -> (r: AfterGg)
    ensures
        match outcome {
            Ok(path) => r matches AfterGg::Saved(p, m, g) && p == path && m@ == gg_mod@ && g@ == gg_game@,
            Err(e) => if settings.use_steamcmd && !settings.ask_before_steamcmd {
                r matches AfterGg::SteamCmd(a, m, g, x) && a == game_app_id && m@ == mod_name@
                    && g@ == game_name@ && x@ == e@
            } else {
                r matches AfterGg::Failed(x) && x@ == e@
            },
        },
{
    match outcome {
        Ok(path) => AfterGg::Saved(path, gg_mod, gg_game),
        Err(e) => if retry_with_steamcmd(settings) {
            AfterGg::SteamCmd(game_app_id, mod_name, game_name, e)
        } else {
            AfterGg::Failed(e)
        },
    }
}

/// How a SteamCMD download of a queued item ends (`outcome`: the folder it
/// was saved to, or SteamCMD's error): a success keeps the names it was
/// started with; a failure reports SteamCMD's error, after GGNetwork's
/// (`gg_error`) when SteamCMD stood in for it.
pub fn steamcmd_outcome(
    gg_error: Option<String>,
    mod_name: String,
    game_name: String,
    outcome: Result<String, String>,
) -> (r: Result<(String, String, String), String>)
    ensures
        match outcome {
            Ok(path) => r matches Ok((p, m, g)) && p == path && m@ == mod_name@ && g@ == game_name@,
            Err(e) => r matches Err(x) && x@ == match gg_error {
                Some(ge) => ge@ + "; SteamCMD: "@ + e@,
                None => e@,
            },
        },
{
    match outcome {
        Ok(path) => Ok((path, mod_name, game_name)),
        Err(e) => match gg_error {
            Some(ge) => Err(combine_errors(ge.as_str(), e.as_str())),
            None => Err(e),
        },
    }
}

/// Starting or finishing one item leaves every other item as it was, and
/// the queue's length is unchanged; enqueueing appends at the end.
pub proof fn law_queue_updates_are_local(q: Seq<ItemView>, index: int, new_item: ItemView, id: u64)
    requires
        0 <= index < q.len(),
    ensures
        q.update(index, new_item).len() == q.len(),
        forall|j: int| 0 <= j < q.len() && j != index ==> #[trigger] q.update(index, new_item)[j] == q[j],
        q.push((id, loading(), 0u32, loading(), (0, seq![]), None, None)).take(q.len() as int) == q,
        first_queued(q.push((id, loading(), 0u32, loading(), (0, seq![]), None, None))) is Some,
{
    let p = q.push((id, loading(), 0u32, loading(), (0, seq![]), None, None));
    assert(p.take(q.len() as int) =~= q);
    assert(p[q.len() as int].4.0 == 0);
}

} // verus!
