//! What the GoldbergDrop window decides between frames: where a dropped
//! executable leads (search, choice of a match, manual App ID, setup), what
//! each message of the background work changes, and how the workshop queue
//! moves on. Every step says which work to start next as actions; the
//! program around it performs them and hands the results back as messages.

use vstd::prelude::*;
use crate::models::{GgItemResponse, QueueItem, QueueStatus, SteamApp};
use crate::sendto::SendToStatus;
use crate::queue::{
    first_queued, gg_items, loading, queue_view, spec_row_button, start_names, DownloadQueue, ItemView, RowButton,
};
use crate::paths::{extension, extension_of, file_name, file_name_of, parent, parent_of};
use crate::text::{
    chars_of, contains, contains_exec, decimal, decimal_string, eq_ignore_ascii_case, eq_ignore_ascii_case_str, extend_chars,
    parse_u32, parse_uint, push_decimal, starts_with, starts_with_exec, string_of, trim, trim_str,
};
use crate::workshop::{item_label, item_label_string};

verus! {

broadcast use vstd::string::group_string_axioms;

/// The screen shown below the drop zone.
#[derive(Clone, Copy, PartialEq, Eq, Structural, Debug)]
pub enum Screen {
    Idle,
    Working,
    ChooseMatch,
    ManualId,
    Done,
    Error,
}

/// Work for the program to start.
#[derive(Debug)]
pub enum Action {
    /// Search the Steam store for the game of this executable.
    Search(String),
    /// Set the game in this folder up with this App ID and name.
    Apply(String, u32, String),
    /// Record the set-up game: executable, App ID, name.
    TrackGame(String, u32, String),
    /// Download one queued item: its index, workshop id, game App ID, mod
    /// name, game name, and whether only SteamCMD may be used.
    Download(usize, u64, u32, String, String, bool),
    /// Download these items in one SteamCMD session: index, game App ID,
    /// workshop id, mod name, game name.
    SteamCmdBatch(Vec<(usize, u32, u64, String, String)>),
    /// Download and deploy SteamCMD.
    EnsureSteamCmd,
    /// Look up the names of this workshop item.
    Resolve(u64),
}

/// A message from the background work.
#[derive(Debug)]
pub enum WorkerMsg {
    SearchFound(SteamApp),
    SearchAmbiguous(Vec<SteamApp>),
    SearchNotFound,
    SearchFailed(String),
    ApplyDone { app_id: u32, name: String, dll_swapped: bool, dlc_count: usize, achievement_count: usize },
    ApplyFailed(String),
    WorkshopDownloadDone { index: usize, path: String, mod_name: String, game_name: String },
    WorkshopFailed { index: usize, error: String },
    /// One SteamCMD session finished for many queued items: for each its
    /// index and the saved folder with the mod and game names, or an error.
    WorkshopSteamCmdBatch { results: Vec<(usize, Result<(String, String, String), String>)> },
    WorkshopQueueInfo {
        workshop_id: u64,
        mod_name: String,
        game_name: String,
        game_app_id: u32,
        gg_item: Option<GgItemResponse>,
        gg_available: bool,
    },
    /// Downloading and deploying SteamCMD finished, with its error if any.
    SteamCmdEnsureDone { error: Option<String> },
}

// ---------------------------------------------------------------------------
// Setting a game up
// ---------------------------------------------------------------------------

/// The state of setting a dropped game up.
pub struct SetupFlow {
    pub exe_path: Option<String>,
    pub screen: Screen,
    pub working_message: String,
    /// The store's matches when the search was ambiguous.
    pub candidates: Vec<SteamApp>,
    pub manual_id_input: String,
    pub manual_id_error: Option<String>,
    /// The match picked from the list (App ID and name), while the App ID
    /// field still holds its id.
    pub selected_match_name: Option<(u32, String)>,
    pub result_message: String,
}

/// A path names an executable: its file name's extension is `exe` up to
/// ASCII case.
pub open spec fn is_exe_path(p: Seq<char>) -> bool {
    match extension(file_name(p)) {
        Some(e) => eq_ignore_ascii_case(e, "exe"@),
        None => false,
    }
}

/// `Searching for "<file name>"...`
pub open spec fn searching_message(p: Seq<char>) -> Seq<char> {
    "Searching for \""@ + file_name(p) + "\"..."@
}

/// `Applying Goldberg setup for "<name>"...`
pub open spec fn applying_message(name: Seq<char>) -> Seq<char> {
    "Applying Goldberg setup for \""@ + name + "\"..."@
}

/// What the setup result says about the DLL.
pub open spec fn dll_message(swapped: bool) -> Seq<char> {
    if swapped {
        "steam_api(64).dll replaced with Goldberg build."@
    } else {
        "No steam_api(64).dll found in the game folder or its subfolders — config written only."@
    }
}

/// What the setup result says about the DLCs (nothing when there are none).
pub open spec fn dlc_message(n: nat) -> Seq<char> {
    if n == 0 {
        seq![]
    } else if n == 1 {
        " Fetched 1 DLC entry."@
    } else {
        " Fetched "@ + decimal(n) + " DLC entries."@
    }
}

/// What the setup result says about the achievements (nothing when there
/// are none).
pub open spec fn achievement_message(n: nat) -> Seq<char> {
    if n == 0 {
        seq![]
    } else {
        " Wrote "@ + decimal(n) + " achievements."@
    }
}

/// The message of a finished setup.
pub open spec fn apply_done_message(name: Seq<char>, app_id: nat, swapped: bool, dlcs: nat, achievements: nat) -> Seq<char> {
    "Done! \""@ + name + "\" (AppID "@ + decimal(app_id) + ") is set up.\n"@ + dll_message(swapped)
        + dlc_message(dlcs) + achievement_message(achievements)
}

/// The App ID field read as `str::trim` then `parse::<u32>`.
pub open spec fn manual_id(input: Seq<char>) -> Option<nat> {
    parse_uint(trim(input), u32::MAX as nat)
}

/// The picked match as values.
pub open spec fn selected_view(s: Option<(u32, String)>) -> Option<(u32, Seq<char>)> {
    match s {
        Some((id, n)) => Some((id, n@)),
        None => None,
    }
}

/// Two states agree on everything but the screen and the two messages.
pub open spec fn same_inputs(a: SetupFlow, b: SetupFlow) -> bool {
    &&& a.exe_path == b.exe_path
    &&& a.candidates == b.candidates
    &&& a.manual_id_input == b.manual_id_input
    &&& a.manual_id_error == b.manual_id_error
    &&& a.selected_match_name == b.selected_match_name
}

/// `next` is `prev` after a failure with this message: the error screen.
pub open spec fn failed_with(prev: SetupFlow, next: SetupFlow, msg: Seq<char>) -> bool {
    &&& same_inputs(prev, next)
    &&& next.working_message == prev.working_message
    &&& next.result_message@ == msg
    &&& next.screen == Screen::Error
}

/// What starting a setup with this App ID and name does: without a game
/// folder it fails; otherwise the working screen shows and the setup of
/// the executable's folder is started.
pub open spec fn start_apply_post(prev: SetupFlow, next: SetupFlow, app_id: u32, name: Seq<char>, r: Seq<ActionView>) -> bool {
    let dir = match prev.exe_path {
        Some(p) => parent(p@),
        None => None,
    };
    match dir {
        None => failed_with(prev, next, "No game folder selected."@) && r == Seq::<ActionView>::empty(),
        Some(d) => {
            &&& same_inputs(prev, next)
            &&& next.result_message == prev.result_message
            &&& next.working_message@ == applying_message(name)
            &&& next.screen == Screen::Working
            &&& r == seq![ActionView::Apply(d, app_id, name)]
        },
    }
}

/// What a finished setup does: the done screen with its message, and the
/// game recorded when an executable was dropped.
pub open spec fn apply_done_post(
    prev: SetupFlow,
    next: SetupFlow,
    app_id: u32,
    name: Seq<char>,
    swapped: bool,
    dlcs: nat,
    achievements: nat,
    r: Seq<ActionView>,
) -> bool {
    &&& same_inputs(prev, next)
    &&& next.working_message == prev.working_message
    &&& next.result_message@ == apply_done_message(name, app_id as nat, swapped, dlcs, achievements)
    &&& next.screen == Screen::Done
    &&& match prev.exe_path {
        Some(p) => r == seq![ActionView::TrackGame(p@, app_id, name)],
        None => r == Seq::<ActionView>::empty(),
    }
}

/// The text of `prefix` followed by `s`.
fn prefixed(prefix: &str, s: &str) -> (r: String)
    ensures
        r@ == prefix@ + s@,
{
    let mut v = chars_of(prefix);
    extend_chars(&mut v, &chars_of(s));
    string_of(&v)
}

/// The message of a finished setup.
pub fn apply_done_text(name: &str, app_id: u32, swapped: bool, dlcs: usize, achievements: usize) -> (r: String)
    ensures
        r@ == apply_done_message(name@, app_id as nat, swapped, dlcs as nat, achievements as nat),
{
    let mut v = chars_of("Done! \"");
    extend_chars(&mut v, &chars_of(name));
    extend_chars(&mut v, &chars_of("\" (AppID "));
    push_decimal(&mut v, app_id as u64);
    extend_chars(&mut v, &chars_of(") is set up.\n"));
    let ghost head = v@;
    if swapped {
        extend_chars(&mut v, &chars_of("steam_api(64).dll replaced with Goldberg build."));
    } else {
        extend_chars(
            &mut v,
            &chars_of("No steam_api(64).dll found in the game folder or its subfolders — config written only."),
        );
    }
    let ghost with_dll = v@;
    if dlcs == 1 {
        extend_chars(&mut v, &chars_of(" Fetched 1 DLC entry."));
    } else if dlcs > 1 {
        extend_chars(&mut v, &chars_of(" Fetched "));
        push_decimal(&mut v, dlcs as u64);
        extend_chars(&mut v, &chars_of(" DLC entries."));
    }
    assert(v@ == with_dll + dlc_message(dlcs as nat));
    let ghost with_dlc = v@;
    if achievements > 0 {
        extend_chars(&mut v, &chars_of(" Wrote "));
        push_decimal(&mut v, achievements as u64);
        extend_chars(&mut v, &chars_of(" achievements."));
    }
    assert(v@ == with_dlc + achievement_message(achievements as nat));
    assert(v@ =~= apply_done_message(name@, app_id as nat, swapped, dlcs as nat, achievements as nat));
    string_of(&v)
}

impl SetupFlow {
    /// Nothing dropped yet.
    pub fn new() -> (r: Self)
        ensures
            r.exe_path is None,
            r.screen == Screen::Idle,
            r.working_message@.len() == 0,
            r.candidates@.len() == 0,
            r.manual_id_input@.len() == 0,
            r.manual_id_error is None,
            r.selected_match_name is None,
            r.result_message@.len() == 0,
    {
        SetupFlow {
            exe_path: None,
            screen: Screen::Idle,
            working_message: String::new(),
            candidates: Vec::new(),
            manual_id_input: String::new(),
            manual_id_error: None,
            selected_match_name: None,
            result_message: String::new(),
        }
    }

    /// Back to the drop zone: the executable, the matches and the App ID
    /// field are forgotten.
    pub fn reset(&mut self)
        ensures
            final(self).exe_path is None,
            final(self).candidates@.len() == 0,
            final(self).manual_id_input@.len() == 0,
            final(self).manual_id_error is None,
            final(self).selected_match_name is None,
            final(self).screen == Screen::Idle,
            final(self).working_message == old(self).working_message,
            final(self).result_message == old(self).result_message,
    {
        self.exe_path = None;
        self.candidates = Vec::new();
        self.manual_id_input = String::new();
        self.manual_id_error = None;
        self.selected_match_name = None;
        self.screen = Screen::Idle;
    }

    /// A file was dropped (or passed on the command line): an executable
    /// starts the store search, anything else is refused.
    pub fn accept_path(&mut self, path: &str) -> (r: Vec<Action>)
        ensures
            !is_exe_path(path@) ==> failed_with(*old(self), *final(self), "Please select a valid .exe file."@)
                && actions_view(r@) == Seq::<ActionView>::empty(),
            is_exe_path(path@) ==> {
                &&& final(self).exe_path matches Some(p) && p@ == path@
                &&& final(self).candidates == old(self).candidates
                &&& final(self).manual_id_input == old(self).manual_id_input
                &&& final(self).manual_id_error == old(self).manual_id_error
                &&& final(self).selected_match_name == old(self).selected_match_name
                &&& final(self).result_message == old(self).result_message
                &&& final(self).working_message@ == searching_message(path@)
                &&& final(self).screen == Screen::Working
                &&& actions_view(r@) == seq![ActionView::Search(path@)]
            },
    {
        let name = file_name_of(path);
        let is_exe = match extension_of(name.as_str()) {
            Some(e) => eq_ignore_ascii_case_str(e.as_str(), "exe"),
            None => false,
        };
        if !is_exe {
            self.result_message = String::from_str("Please select a valid .exe file.");
            self.screen = Screen::Error;
            return no_actions();
        }
        let mut v = chars_of("Searching for \"");
        extend_chars(&mut v, &chars_of(name.as_str()));
        extend_chars(&mut v, &chars_of("\"..."));
        self.working_message = string_of(&v);
        self.exe_path = Some(String::from_str(path));
        self.screen = Screen::Working;
        one_action(Action::Search(String::from_str(path)))
    }

    /// Starts setting the dropped game up with this App ID and name.
    pub fn start_apply(&mut self, app_id: u32, name: String) -> (r: Vec<Action>)
        ensures
            start_apply_post(*old(self), *final(self), app_id, name@, actions_view(r@)),
    {
        let dir = match &self.exe_path {
            Some(p) => parent_of(p.as_str()),
            None => None,
        };
        match dir {
            None => {
                self.result_message = String::from_str("No game folder selected.");
                self.screen = Screen::Error;
                no_actions()
            },
            Some(d) => {
                let mut v = chars_of("Applying Goldberg setup for \"");
                extend_chars(&mut v, &chars_of(name.as_str()));
                extend_chars(&mut v, &chars_of("\"..."));
                self.working_message = string_of(&v);
                self.screen = Screen::Working;
                one_action(Action::Apply(d, app_id, name))
            },
        }
    }

    /// A match was picked from the list: its App ID fills the field.
    pub fn choose_candidate(&mut self, index: usize)
        requires
            index < old(self).candidates@.len(),
        ensures
            ({
                let app = old(self).candidates@[index as int];
                &&& final(self).manual_id_input@ == decimal(app.app_id as nat)
                &&& final(self).manual_id_error is None
                &&& selected_view(final(self).selected_match_name) == Some((app.app_id, app.name@))
            }),
            final(self).exe_path == old(self).exe_path,
            final(self).candidates == old(self).candidates,
            final(self).screen == old(self).screen,
            final(self).working_message == old(self).working_message,
            final(self).result_message == old(self).result_message,
    {
        let id = self.candidates[index].app_id;
        let name = self.candidates[index].name.clone();
        self.manual_id_input = decimal_string(id as u64);
        self.manual_id_error = None;
        self.selected_match_name = Some((id, name));
    }

    /// The App ID field was edited. On the match list this clears the
    /// error, and forgets the picked match unless the field still holds
    /// its id.
    pub fn edit_manual_id(&mut self, text: String)
        ensures
            final(self).manual_id_input@ == text@,
            old(self).screen == Screen::ChooseMatch ==> {
                &&& final(self).manual_id_error is None
                &&& final(self).selected_match_name == (match old(self).selected_match_name {
                    Some((sid, n)) => if manual_id(text@) == Some(sid as nat) {
                        old(self).selected_match_name
                    } else {
                        None
                    },
                    None => None,
                })
            },
            old(self).screen != Screen::ChooseMatch ==> final(self).manual_id_error == old(self).manual_id_error && final(self).selected_match_name == old(self).selected_match_name,
            final(self).exe_path == old(self).exe_path,
            final(self).candidates == old(self).candidates,
            final(self).screen == old(self).screen,
            final(self).working_message == old(self).working_message,
            final(self).result_message == old(self).result_message,
    {
        let parsed = parse_u32(trim_str(text.as_str()).as_str());
        self.manual_id_input = text;
        if self.screen == Screen::ChooseMatch {
            self.manual_id_error = None;
            let keep = match (&parsed, &self.selected_match_name) {
                (Some(id), Some((sid, _))) => *id == *sid,
                _ => false,
            };
            if !keep {
                self.selected_match_name = None;
            }
        }
    }

    /// Apply was pressed with the App ID field: a valid id gives the id and,
    /// on the match list when it is the picked match's, that match's name
    /// (else the name is to be looked up); otherwise the field shows an
    /// error.
    pub fn submit_manual_id(&mut self) -> (r: Option<(u32, Option<String>)>)
        ensures
            manual_id(old(self).manual_id_input@) is None ==> {
                &&& r is None
                &&& final(self).manual_id_error matches Some(e) && e@ == "Please enter a valid numeric App ID."@
                &&& final(self).exe_path == old(self).exe_path
                &&& final(self).candidates == old(self).candidates
                &&& final(self).manual_id_input == old(self).manual_id_input
                &&& final(self).selected_match_name == old(self).selected_match_name
                &&& final(self).screen == old(self).screen
                &&& final(self).working_message == old(self).working_message
                &&& final(self).result_message == old(self).result_message
            },
            manual_id(old(self).manual_id_input@) matches Some(id) ==> {
                &&& *final(self) == *old(self)
                &&& r matches Some((rid, known)) && rid as nat == id && (match known {
                    Some(n) => old(self).screen == Screen::ChooseMatch && selected_view(
                        old(self).selected_match_name,
                    ) == Some((rid, n@)),
                    None => !(old(self).screen == Screen::ChooseMatch && (old(self).selected_match_name matches Some((sid, _)) && sid == rid)),
                })
            },
    {
        match parse_u32(trim_str(self.manual_id_input.as_str()).as_str()) {
            None => {
                self.manual_id_error = Some(String::from_str("Please enter a valid numeric App ID."));
                None
            },
            Some(id) => {
                let known = if self.screen == Screen::ChooseMatch {
                    match &self.selected_match_name {
                        Some((sid, n)) => if *sid == id {
                            Some(n.clone())
                        } else {
                            None
                        },
                        None => None,
                    }
                } else {
                    None
                };
                Some((id, known))
            },
        }
    }

    /// The search found the game: its setup starts.
    pub fn on_search_found(&mut self, app: SteamApp) -> (r: Vec<Action>)
        ensures
            start_apply_post(*old(self), *final(self), app.app_id, app.name@, actions_view(r@)),
    {
        self.start_apply(app.app_id, app.name)
    }

    /// The search found several games: the list is shown with an empty App
    /// ID field.
    pub fn on_search_ambiguous(&mut self, list: Vec<SteamApp>)
        ensures
            final(self).candidates == list,
            final(self).manual_id_input@.len() == 0,
            final(self).manual_id_error is None,
            final(self).selected_match_name is None,
            final(self).screen == Screen::ChooseMatch,
            final(self).exe_path == old(self).exe_path,
            final(self).working_message == old(self).working_message,
            final(self).result_message == old(self).result_message,
    {
        self.candidates = list;
        self.manual_id_input = String::new();
        self.manual_id_error = None;
        self.selected_match_name = None;
        self.screen = Screen::ChooseMatch;
    }

    /// The search found nothing: the App ID is asked for.
    pub fn on_search_not_found(&mut self)
        ensures
            final(self).manual_id_input@.len() == 0,
            final(self).manual_id_error is None,
            final(self).screen == Screen::ManualId,
            final(self).exe_path == old(self).exe_path,
            final(self).candidates == old(self).candidates,
            final(self).selected_match_name == old(self).selected_match_name,
            final(self).working_message == old(self).working_message,
            final(self).result_message == old(self).result_message,
    {
        self.manual_id_input = String::new();
        self.manual_id_error = None;
        self.screen = Screen::ManualId;
    }

    /// The search failed.
    pub fn on_search_failed(&mut self, error: &str)
        ensures
            failed_with(*old(self), *final(self), "Search failed: "@ + error@),
    {
        self.result_message = prefixed("Search failed: ", error);
        self.screen = Screen::Error;
    }

    /// The setup finished.
    pub fn on_apply_done(
        &mut self,
        app_id: u32,
        name: String,
        dll_swapped: bool,
        dlc_count: usize,
        achievement_count: usize,
    ) -> (r: Vec<Action>)
        ensures
            apply_done_post(
                *old(self),
                *final(self),
                app_id,
                name@,
                dll_swapped,
                dlc_count as nat,
                achievement_count as nat,
                actions_view(r@),
            ),
    {
        self.result_message = apply_done_text(name.as_str(), app_id, dll_swapped, dlc_count, achievement_count);
        self.screen = Screen::Done;
        match &self.exe_path {
            Some(p) => one_action(Action::TrackGame(p.clone(), app_id, name)),
            None => no_actions(),
        }
    }

    /// The setup failed.
    pub fn on_apply_failed(&mut self, error: &str)
        ensures
            failed_with(*old(self), *final(self), "Setup failed: "@ + error@),
    {
        self.result_message = prefixed("Setup failed: ", error);
        self.screen = Screen::Error;
    }
}

// ---------------------------------------------------------------------------
// The workshop queue
// ---------------------------------------------------------------------------

/// The message of an item that neither GGNetwork nor SteamCMD could fetch.
pub open spec fn no_download_method() -> Seq<char> {
    "None of the download methods worked (GGNetwork + SteamCMD)."@
}

/// The status line while SteamCMD is being installed for a retry.
pub open spec fn installing_steamcmd() -> Seq<char> {
    "SteamCMD is not installed yet — downloading and deploying…"@
}

/// The queue's switches.
#[derive(Clone, Copy, PartialEq, Eq, Structural, Debug)]
pub struct QueueFlags {
    /// A download (or a SteamCMD session) is running.
    pub processing: bool,
    /// The next runs use SteamCMD only, all queued items in one session.
    pub force_steamcmd: bool,
    /// The list of failed downloads is shown.
    pub failed_overlay_open: bool,
    /// The list stays closed until a new failure.
    pub failed_overlay_suppress: bool,
    /// Downloading starts once every name is resolved.
    pub download_when_resolved: bool,
    /// A SteamCMD retry waits for SteamCMD to be installed.
    pub pending_steamcmd_retry: bool,
    /// The SteamCMD retry already ran.
    pub steamcmd_exhausted: bool,
}

/// What the list of failed downloads shows.
#[derive(Debug)]
pub struct FailedOverlay {
    /// Mod name, game name and workshop id of each failed item, in queue
    /// order.
    pub rows: Vec<(String, String, u64)>,
    /// `Retry with SteamCMD` is offered.
    pub retry_offered: bool,
    /// The button can be pressed: no SteamCMD install for a retry runs.
    pub retry_enabled: bool,
    /// Every download method was tried.
    pub exhausted: bool,
    /// The progress of a SteamCMD install for a retry.
    pub status: Option<String>,
}

/// The workshop download part of the window.
pub struct DownloadFlow {
    pub queue: DownloadQueue,
    pub flags: QueueFlags,
    /// Status line while SteamCMD is installed (or why that failed).
    pub steamcmd_setup_status: Option<String>,
}

/// Work to start, as values.
pub enum ActionView {
    Search(Seq<char>),
    Apply(Seq<char>, u32, Seq<char>),
    TrackGame(Seq<char>, u32, Seq<char>),
    Download(int, u64, u32, Seq<char>, Seq<char>, bool),
    SteamCmdBatch(Seq<(int, u32, u64, Seq<char>, Seq<char>)>),
    EnsureSteamCmd,
    Resolve(u64),
}

pub open spec fn job_view(j: (usize, u32, u64, String, String)) -> (int, u32, u64, Seq<char>, Seq<char>) {
    (j.0 as int, j.1, j.2, j.3@, j.4@)
}

pub open spec fn action_view(a: Action) -> ActionView {
    match a {
        Action::Search(p) => ActionView::Search(p@),
        Action::Apply(d, id, n) => ActionView::Apply(d@, id, n@),
        Action::TrackGame(e, id, n) => ActionView::TrackGame(e@, id, n@),
        Action::Download(i, w, a, m, g, f) => ActionView::Download(i as int, w, a, m@, g@, f),
        Action::SteamCmdBatch(jobs) => ActionView::SteamCmdBatch(jobs@.map_values(|j| job_view(j))),
        Action::EnsureSteamCmd => ActionView::EnsureSteamCmd,
        Action::Resolve(w) => ActionView::Resolve(w),
    }
}

pub open spec fn actions_view(v: Seq<Action>) -> Seq<ActionView> {
    v.map_values(|a: Action| action_view(a))
}

/// The queue part as values: items, switches, SteamCMD status line, and
/// GGNetwork's answer kept with each item.
pub struct FlowState {
    pub queue: Seq<ItemView>,
    pub flags: QueueFlags,
    pub status: Option<Seq<char>>,
    pub gg: Seq<Option<GgItemResponse>>,
}

pub open spec fn opt_view(s: Option<String>) -> Option<Seq<char>> {
    match s {
        Some(t) => Some(t@),
        None => None,
    }
}

pub open spec fn flow_view(f: DownloadFlow) -> FlowState {
    FlowState {
        queue: queue_view(f.queue.items@),
        flags: f.flags,
        status: opt_view(f.steamcmd_setup_status),
        gg: gg_items(f.queue.items@),
    }
}

/// The item being downloaded.
pub open spec fn downloading(it: ItemView) -> ItemView {
    (it.0, it.1, it.2, it.3, (1, seq![]), it.5, it.6)
}

/// The item downloaded, with its final names and folder.
pub open spec fn done_item(it: ItemView, m: Seq<char>, g: Seq<char>, path: Seq<char>) -> ItemView {
    (it.0, m, it.2, g, (2, seq![]), it.5, Some(path))
}

/// The item failed with this message.
pub open spec fn failed_item(it: ItemView, e: Seq<char>) -> ItemView {
    (it.0, it.1, it.2, it.3, (3, e), it.5, it.6)
}

/// The item with its names resolved.
pub open spec fn resolved_item(it: ItemView, m: Seq<char>, g: Seq<char>, app: u32, avail: bool) -> ItemView {
    (it.0, m, app, g, it.4, Some(avail), it.6)
}

/// A failed item queued again; others unchanged.
pub open spec fn requeued(it: ItemView) -> ItemView {
    if it.4.0 == 3 {
        (it.0, it.1, it.2, it.3, (0, seq![]), it.5, it.6)
    } else {
        it
    }
}

/// Some item failed.
pub open spec fn has_failed(q: Seq<ItemView>) -> bool {
    exists|i: int| 0 <= i < q.len() && #[trigger] q[i].4.0 == 3
}

/// Some item's names are still being looked up.
pub open spec fn lookup_pending(q: Seq<ItemView>) -> bool {
    exists|i: int| 0 <= i < q.len() && #[trigger] q[i].1 == loading()
}

/// The list of failed downloads opens when there are failures, unless the
/// user closed it since the last one.
pub open spec fn overlay_checked(f: QueueFlags, q: Seq<ItemView>) -> QueueFlags {
    if !f.failed_overlay_suppress && has_failed(q) {
        QueueFlags { failed_overlay_open: true, ..f }
    } else {
        f
    }
}

/// The indices of the queued items among the first `k`, in order.
pub open spec fn queued_indices(q: Seq<ItemView>, k: int) -> Seq<int>
    decreases k,
{
    if k <= 0 {
        seq![]
    } else if q[k - 1].4.0 == 0 {
        queued_indices(q, k - 1).push(k - 1)
    } else {
        queued_indices(q, k - 1)
    }
}

/// The SteamCMD job of the `i`-th item: index, game App ID, workshop id,
/// mod and game names (placeholders replaced).
pub open spec fn job_of(q: Seq<ItemView>, i: int) -> (int, u32, u64, Seq<char>, Seq<char>) {
    (i, q[i].2, q[i].0, start_names(q[i]).0, start_names(q[i]).1)
}

/// Every queued item among the first `k` marked downloading.
pub open spec fn mark_queued(q: Seq<ItemView>, k: int) -> Seq<ItemView> {
    Seq::new(
        q.len(),
        |j: int|
            if j < k && q[j].4.0 == 0 {
                downloading(q[j])
            } else {
                q[j]
            },
    )
}

/// Runs all queued items through one SteamCMD session; with none, the
/// SteamCMD-only mode ends.
pub open spec fn batch_step(s: FlowState) -> (FlowState, Seq<ActionView>) {
    let idx = queued_indices(s.queue, s.queue.len() as int);
    if idx.len() == 0 {
        (
            FlowState {
                flags: overlay_checked(QueueFlags { force_steamcmd: false, ..s.flags }, s.queue),
                ..s
            },
            seq![],
        )
    } else {
        (
            FlowState {
                queue: mark_queued(s.queue, s.queue.len() as int),
                flags: QueueFlags { processing: true, ..s.flags },
                ..s
            },
            seq![ActionView::SteamCmdBatch(idx.map_values(|i: int| job_of(s.queue, i)))],
        )
    }
}

/// Moves the queue on: nothing while a download runs; in SteamCMD-only
/// mode one session for all queued items; otherwise the first queued item
/// starts, and with none queued the failures are shown.
pub open spec fn process_step(s: FlowState) -> (FlowState, Seq<ActionView>) {
    if s.flags.processing {
        (s, seq![])
    } else if s.flags.force_steamcmd {
        batch_step(s)
    } else {
        match first_queued(s.queue) {
            None => (FlowState { flags: overlay_checked(s.flags, s.queue), ..s }, seq![]),
            Some(i) => (
                FlowState {
                    queue: s.queue.update(i, downloading(s.queue[i])),
                    flags: QueueFlags { processing: true, ..s.flags },
                    ..s
                },
                seq![
                    ActionView::Download(
                        i,
                        s.queue[i].0,
                        s.queue[i].2,
                        start_names(s.queue[i]).0,
                        start_names(s.queue[i]).1,
                        s.flags.force_steamcmd,
                    ),
                ],
            ),
        }
    }
}

/// A download finished: the item is done and the queue moves on.
pub open spec fn download_done_step(s: FlowState, index: int, path: Seq<char>, m: Seq<char>, g: Seq<char>) -> (
    FlowState,
    Seq<ActionView>,
) {
    let q = if 0 <= index < s.queue.len() {
        s.queue.update(index, done_item(s.queue[index], m, g, path))
    } else {
        s.queue
    };
    process_step(FlowState { queue: q, flags: QueueFlags { processing: false, ..s.flags }, ..s })
}

/// A download failed: the item fails, the failures may be shown again, and
/// the queue moves on.
pub open spec fn download_failed_step(s: FlowState, index: int, e: Seq<char>) -> (FlowState, Seq<ActionView>) {
    let q = if 0 <= index < s.queue.len() {
        s.queue.update(index, failed_item(s.queue[index], e))
    } else {
        s.queue
    };
    process_step(
        FlowState {
            queue: q,
            flags: QueueFlags { processing: false, failed_overlay_suppress: false, ..s.flags },
            ..s
        },
    )
}

/// The results of a SteamCMD session as values.
pub open spec fn batch_results_view(v: Seq<(usize, Result<(String, String, String), String>)>) -> Seq<
    (int, Option<(Seq<char>, Seq<char>, Seq<char>)>),
> {
    v.map_values(
        |r: (usize, Result<(String, String, String), String>)|
            (
                r.0 as int,
                match r.1 {
                    Ok((p, m, g)) => Some((p@, m@, g@)),
                    Err(_) => None,
                },
            ),
    )
}

/// The queue after the first `k` results of a SteamCMD session, and
/// whether one of them (for an item in the queue) failed.
pub open spec fn batch_results_fold(q: Seq<ItemView>, rs: Seq<(int, Option<(Seq<char>, Seq<char>, Seq<char>)>)>, k: int) -> (
    Seq<ItemView>,
    bool,
)
    decreases k,
{
    if k <= 0 {
        (q, false)
    } else {
        let (acc, any) = batch_results_fold(q, rs, k - 1);
        let (i, r) = rs[k - 1];
        if 0 <= i < acc.len() {
            match r {
                Some((p, m, g)) => (acc.update(i, done_item(acc[i], m, g, p)), any),
                None => (acc.update(i, failed_item(acc[i], no_download_method())), true),
            }
        } else {
            (acc, any)
        }
    }
}

/// A SteamCMD session finished: each item is done or fails with the
/// no-method message; the SteamCMD-only mode ends and counts as used; on a
/// failure the list of failures is shown again.
pub open spec fn batch_done_step(s: FlowState, rs: Seq<(int, Option<(Seq<char>, Seq<char>, Seq<char>)>)>) -> FlowState {
    let (q, any) = batch_results_fold(s.queue, rs, rs.len() as int);
    let f = QueueFlags { processing: false, force_steamcmd: false, steamcmd_exhausted: true, ..s.flags };
    if any {
        FlowState {
            queue: q,
            flags: overlay_checked(QueueFlags { failed_overlay_suppress: false, ..f }, q),
            ..s
        }
    } else {
        FlowState { queue: q, flags: f, ..s }
    }
}

/// The last item of this workshop id still waiting for its names.
pub open spec fn last_pending(q: Seq<ItemView>, id: u64) -> Option<int> {
    if exists|i: int| 0 <= i < q.len() && q[i].0 == id && q[i].1 == loading() {
        Some(
            choose|i: int|
                0 <= i < q.len() && q[i].0 == id && q[i].1 == loading() && forall|j: int|
                    i < j < q.len() ==> !(#[trigger] q[j].0 == id && q[j].1 == loading()),
        )
    } else {
        None
    }
}

/// An item's names arrived: the last such item waiting for them takes
/// them; when downloading waits for all names and none is missing any
/// more, it starts.
pub open spec fn queue_info_step(
    s: FlowState,
    id: u64,
    m: Seq<char>,
    g: Seq<char>,
    app: u32,
    item: Option<GgItemResponse>,
    avail: bool,
) -> (FlowState, Seq<ActionView>) {
    let (q, gg) = match last_pending(s.queue, id) {
        Some(i) => (s.queue.update(i, resolved_item(s.queue[i], m, g, app, avail)), s.gg.update(i, item)),
        None => (s.queue, s.gg),
    };
    if s.flags.download_when_resolved && !lookup_pending(q) {
        process_step(
            FlowState { queue: q, gg, flags: QueueFlags { download_when_resolved: false, ..s.flags }, ..s },
        )
    } else {
        (FlowState { queue: q, gg, ..s }, seq![])
    }
}

/// A workshop item is queued with placeholder names and its names are
/// looked up; with `start_now`, downloading starts once they are known.
pub open spec fn enqueue_step(s: FlowState, id: u64, start_now: bool) -> (FlowState, Seq<ActionView>) {
    let q = s.queue.push((id, loading(), 0u32, loading(), (0, seq![]), None, None));
    let f = QueueFlags { steamcmd_exhausted: false, ..s.flags };
    (
        FlowState {
            queue: q,
            gg: s.gg.push(None),
            flags: if start_now {
                QueueFlags { download_when_resolved: true, ..f }
            } else {
                f
            },
            ..s
        },
        seq![ActionView::Resolve(id)],
    )
}

/// The SteamCMD retry: failed items are queued again and run through one
/// SteamCMD session; the list of failures closes.
pub open spec fn begin_retry_step(s: FlowState) -> (FlowState, Seq<ActionView>) {
    process_step(
        FlowState {
            queue: s.queue.map_values(|it: ItemView| requeued(it)),
            flags: QueueFlags {
                force_steamcmd: true,
                steamcmd_exhausted: false,
                failed_overlay_open: false,
                failed_overlay_suppress: true,
                ..s.flags
            },
            status: None,
            gg: s.gg,
        },
    )
}

/// Retry with SteamCMD was asked for: nothing when SteamCMD is off or is
/// being installed; SteamCMD is installed first when missing; otherwise
/// the retry starts.
pub open spec fn retry_step(s: FlowState, use_steamcmd: bool, installed: bool) -> (FlowState, Seq<ActionView>) {
    if !use_steamcmd || s.status is Some {
        (s, seq![])
    } else if !installed {
        (
            FlowState {
                status: Some(installing_steamcmd()),
                flags: QueueFlags { pending_steamcmd_retry: true, ..s.flags },
                ..s
            },
            seq![ActionView::EnsureSteamCmd],
        )
    } else {
        begin_retry_step(s)
    }
}

/// The failed items among the first `k`, in queue order: mod name, game
/// name, workshop id.
pub open spec fn failed_rows(q: Seq<ItemView>, k: int) -> Seq<(Seq<char>, Seq<char>, u64)>
    decreases k,
{
    if k <= 0 {
        seq![]
    } else if q[k - 1].4.0 == 3 {
        failed_rows(q, k - 1).push((q[k - 1].1, q[k - 1].3, q[k - 1].0))
    } else {
        failed_rows(q, k - 1)
    }
}

/// Rows as values.
pub open spec fn rows_view(rows: Seq<(String, String, u64)>) -> Seq<(Seq<char>, Seq<char>, u64)> {
    rows.map_values(|r: (String, String, u64)| (r.0@, r.1@, r.2))
}

/// No row among the first `k` exactly when none of them failed.
proof fn lemma_failed_rows_empty(q: Seq<ItemView>, k: int)
    requires
        0 <= k <= q.len(),
    ensures
        failed_rows(q, k).len() == 0 <==> forall|j: int| 0 <= j < k ==> #[trigger] q[j].4.0 != 3,
    decreases k,
{
    if k > 0 {
        lemma_failed_rows_empty(q, k - 1);
        if q[k - 1].4.0 != 3 {
            assert((forall|j: int| 0 <= j < k ==> #[trigger] q[j].4.0 != 3) ==> (forall|j: int|
                0 <= j < k - 1 ==> #[trigger] q[j].4.0 != 3));
        }
    }
}

/// The status line says SteamCMD is being downloaded and deployed.
pub open spec fn steamcmd_busy_status(status: Option<Seq<char>>) -> bool {
    match status {
        Some(st) => contains(st, "Downloading"@) || contains(st, "deploying"@),
        None => false,
    }
}

/// The status line is shown as an error.
pub open spec fn status_is_error(status: Seq<char>) -> bool {
    contains(status, "failed"@) || contains(status, "Remove failed"@)
}

/// `Install / Update SteamCMD` was pressed: unless SteamCMD is already
/// being installed, the status line says it is and SteamCMD is installed.
pub open spec fn install_step(s: FlowState) -> (FlowState, Seq<ActionView>) {
    if steamcmd_busy_status(s.status) {
        (s, seq![])
    } else {
        (FlowState { status: Some("Downloading and deploying SteamCMD…"@), ..s }, seq![ActionView::EnsureSteamCmd])
    }
}

/// Removing SteamCMD finished: its failure is shown; otherwise the status
/// line is cleared and no retry waits for SteamCMD any more.
pub open spec fn removed_step(s: FlowState, error: Option<Seq<char>>) -> FlowState {
    match error {
        Some(e) => FlowState { status: Some("Remove failed: "@ + e), ..s },
        None => FlowState {
            status: None,
            flags: QueueFlags { pending_steamcmd_retry: false, ..s.flags },
            ..s
        },
    }
}

/// Installing SteamCMD finished: its failure is shown; otherwise a waiting
/// retry starts.
pub open spec fn ensure_done_step(s: FlowState, error: Option<Seq<char>>) -> (FlowState, Seq<ActionView>) {
    let f = QueueFlags { pending_steamcmd_retry: false, ..s.flags };
    match error {
        Some(e) => (FlowState { flags: f, status: Some("SteamCMD setup failed: "@ + e), ..s }, seq![]),
        None => if s.flags.pending_steamcmd_retry {
            begin_retry_step(FlowState { flags: f, status: None, ..s })
        } else {
            (FlowState { flags: f, status: None, ..s }, seq![])
        },
    }
}

/// The items among the first `k` that are downloading, in order.
pub open spec fn downloading_only(q: Seq<ItemView>, k: int) -> Seq<ItemView>
    decreases k,
{
    if k <= 0 {
        seq![]
    } else if q[k - 1].4.0 == 1 {
        downloading_only(q, k - 1).push(q[k - 1])
    } else {
        downloading_only(q, k - 1)
    }
}

/// GGNetwork's answers of the items among the first `k` that are
/// downloading, in order.
pub open spec fn gg_downloading_only(q: Seq<ItemView>, gg: Seq<Option<GgItemResponse>>, k: int) -> Seq<
    Option<GgItemResponse>,
>
    decreases k,
{
    if k <= 0 {
        seq![]
    } else if q[k - 1].4.0 == 1 {
        gg_downloading_only(q, gg, k - 1).push(gg[k - 1])
    } else {
        gg_downloading_only(q, gg, k - 1)
    }
}

/// An item can be taken off the queue while queued or failed.
pub open spec fn removable(it: ItemView) -> bool {
    it.4.0 == 0 || it.4.0 == 3
}

/// With no queued item among the first `k`, marking leaves them alone.
proof fn lemma_no_queued(q: Seq<ItemView>, k: int)
    requires
        0 <= k <= q.len(),
        queued_indices(q, k).len() == 0,
    ensures
        forall|j: int| 0 <= j < k ==> #[trigger] q[j].4.0 != 0,
    decreases k,
{
    if k > 0 {
        assert(q[k - 1].4.0 != 0);
        lemma_no_queued(q, k - 1);
    }
}

/// No action.
fn no_actions() -> (r: Vec<Action>)
    ensures
        actions_view(r@) == Seq::<ActionView>::empty(),
{
    let r: Vec<Action> = Vec::new();
    assert(actions_view(r@) =~= Seq::<ActionView>::empty());
    r
}

/// One action as a list.
fn one_action(a: Action) -> (r: Vec<Action>)
    ensures
        actions_view(r@) == seq![action_view(a)],
{
    let mut r: Vec<Action> = Vec::new();
    r.push(a);
    assert(actions_view(r@) =~= seq![action_view(a)]);
    r
}

impl DownloadFlow {
    /// All switches off.
    pub open spec fn new_flags() -> QueueFlags {
        QueueFlags {
            processing: false,
            force_steamcmd: false,
            failed_overlay_open: false,
            failed_overlay_suppress: false,
            download_when_resolved: false,
            pending_steamcmd_retry: false,
            steamcmd_exhausted: false,
        }
    }

    /// An empty queue, all switches off.
    pub fn new() -> (r: Self)
        ensures
            flow_view(r).queue.len() == 0,
            r.flags == Self::new_flags(),
            r.steamcmd_setup_status is None,
    {
        DownloadFlow {
            queue: DownloadQueue::new(),
            flags: QueueFlags {
                processing: false,
                force_steamcmd: false,
                failed_overlay_open: false,
                failed_overlay_suppress: false,
                download_when_resolved: false,
                pending_steamcmd_retry: false,
                steamcmd_exhausted: false,
            },
            steamcmd_setup_status: None,
        }
    }

    /// Some item failed.
    pub fn has_failed_items(&self) -> (r: bool)
        ensures
            r == has_failed(queue_view(self.queue.items@)),
    {
        let ghost q = queue_view(self.queue.items@);
        let mut i: usize = 0;
        while i < self.queue.items.len()
            invariant
                i <= self.queue.items.len(),
                q == queue_view(self.queue.items@),
                forall|j: int| 0 <= j < i ==> #[trigger] q[j].4.0 != 3,
            decreases self.queue.items.len() - i,
        {
            let failed = match self.queue.items[i].status {
                QueueStatus::Failed(_) => true,
                _ => false,
            };
            assert(q[i as int].4.0 == 3 <==> failed);
            if failed {
                return true;
            }
            i = i + 1;
        }
        false
    }

    /// Opens the list of failed downloads when there are failures, unless
    /// the user closed it since the last one.
    pub fn maybe_show_failed_overlay(&mut self)
        ensures
            flow_view(*final(self)) == (FlowState {
                flags: overlay_checked(old(self).flags, queue_view(old(self).queue.items@)),
                ..flow_view(*old(self))
            }),
            final(self).queue == old(self).queue,
    {
        if !self.flags.failed_overlay_suppress && self.has_failed_items() {
            self.flags.failed_overlay_open = true;
        }
    }

    /// The user closed the list of failed downloads: it stays closed until
    /// a new failure.
    pub fn dismiss_failed_overlay(&mut self)
        ensures
            flow_view(*final(self)) == (FlowState {
                flags: QueueFlags { failed_overlay_open: false, failed_overlay_suppress: true, ..old(self).flags },
                ..flow_view(*old(self))
            }),
            final(self).queue == old(self).queue,
    {
        self.flags.failed_overlay_open = false;
        self.flags.failed_overlay_suppress = true;
    }

    /// Runs all queued items through one SteamCMD session.
    fn start_batch(&mut self) -> (r: Vec<Action>)
        ensures
            (flow_view(*final(self)), actions_view(r@)) == batch_step(flow_view(*old(self))),
    {
        let ghost q0 = queue_view(self.queue.items@);
        let ghost gg0 = gg_items(self.queue.items@);
        let n = self.queue.items.len();
        let mut jobs: Vec<(usize, u32, u64, String, String)> = Vec::new();
        let mut i: usize = 0;
        assert(queue_view(self.queue.items@) =~= mark_queued(q0, 0));
        while i < n
            invariant
                n == self.queue.items@.len(),
                q0.len() == n,
                i <= n,
                queue_view(self.queue.items@) == mark_queued(q0, i as int),
                gg_items(self.queue.items@) == gg0,
                jobs@.map_values(|j: (usize, u32, u64, String, String)| job_view(j)) == queued_indices(
                    q0,
                    i as int,
                ).map_values(|k: int| job_of(q0, k)),
                self.flags == old(self).flags,
                self.steamcmd_setup_status == old(self).steamcmd_setup_status,
            decreases n - i,
        {
            let ghost before = queue_view(self.queue.items@);
            let ghost jb = jobs@;
            assert(before[i as int] == q0[i as int]);
            let queued = match self.queue.items[i].status {
                QueueStatus::Queued => true,
                _ => false,
            };
            assert(q0[i as int].4.0 == 0 <==> queued);
            if queued {
                let (w, a, m, g) = self.queue.start(i);
                jobs.push((i, a, w, m, g));
                proof {
                    assert(queue_view(self.queue.items@) =~= mark_queued(q0, i + 1)) by {
                        assert forall|j: int| 0 <= j < n implies #[trigger] queue_view(self.queue.items@)[j]
                            == mark_queued(q0, i + 1)[j] by {
                            if j != i {
                                assert(queue_view(self.queue.items@)[j] == before[j]);
                            }
                        }
                    }
                    assert(queued_indices(q0, i + 1) == queued_indices(q0, i as int).push(i as int));
                    assert(jobs@.map_values(|j: (usize, u32, u64, String, String)| job_view(j)) =~= jb.map_values(
                        |j: (usize, u32, u64, String, String)| job_view(j),
                    ).push(job_of(q0, i as int)));
                    assert(queued_indices(q0, i + 1).map_values(|k: int| job_of(q0, k)) =~= queued_indices(
                        q0,
                        i as int,
                    ).map_values(|k: int| job_of(q0, k)).push(job_of(q0, i as int)));
                }
            } else {
                proof {
                    assert(queue_view(self.queue.items@) =~= mark_queued(q0, i + 1));
                    assert(queued_indices(q0, i + 1) == queued_indices(q0, i as int));
                }
            }
            i = i + 1;
        }
        if jobs.len() == 0 {
            proof {
                assert(queued_indices(q0, n as int).map_values(|k: int| job_of(q0, k)).len() == 0);
                lemma_no_queued(q0, n as int);
                assert(queue_view(self.queue.items@) =~= q0);
            }
            self.flags.force_steamcmd = false;
            self.maybe_show_failed_overlay();
            let r: Vec<Action> = Vec::new();
            assert(actions_view(r@) =~= seq![]);
            return r;
        }
        self.flags.processing = true;
        let ghost jv = jobs@.map_values(|j: (usize, u32, u64, String, String)| job_view(j));
        let r = one_action(Action::SteamCmdBatch(jobs));
        r
    }

    /// Starts the download of the first queued item, at `i`.
    #[verifier::spinoff_prover]
    fn start_one(&mut self, i: usize) -> (r: Vec<Action>)
        requires
            !old(self).flags.processing,
            !old(self).flags.force_steamcmd,
            first_queued(queue_view(old(self).queue.items@)) == Some(i as int),
            i < old(self).queue.items@.len(),
        ensures
            (flow_view(*final(self)), actions_view(r@)) == process_step(flow_view(*old(self))),
    {
        let ghost q0 = queue_view(self.queue.items@);
        let ghost s0 = flow_view(*self);
        self.flags.processing = true;
        let force = self.flags.force_steamcmd;
        let (w, a, m, g) = self.queue.start(i);
        assert(queue_view(self.queue.items@) =~= q0.update(i as int, downloading(q0[i as int])));
        let r = one_action(Action::Download(i, w, a, m, g, force));
        assert(process_step(s0).1 == seq![action_view(Action::Download(i, w, a, m, g, force))]);
        r
    }

    /// Moves the queue on (see `process_step`).
    pub fn try_process_queue(&mut self) -> (r: Vec<Action>)
        ensures
            (flow_view(*final(self)), actions_view(r@)) == process_step(flow_view(*old(self))),
    {
        if self.flags.processing {
            let r: Vec<Action> = Vec::new();
            assert(actions_view(r@) =~= seq![]);
            return r;
        }
        if self.flags.force_steamcmd {
            return self.start_batch();
        }
        match self.queue.next_queued() {
            None => {
                self.maybe_show_failed_overlay();
                let r: Vec<Action> = Vec::new();
                assert(actions_view(r@) =~= seq![]);
                r
            },
            Some(i) => self.start_one(i),
        }
    }
}

impl DownloadFlow {
    /// A download finished (see `download_done_step`).
    pub fn on_download_done(&mut self, index: usize, path: String, mod_name: String, game_name: String) -> (r: Vec<
        Action,
    >)
        ensures
            (flow_view(*final(self)), actions_view(r@)) == download_done_step(
                flow_view(*old(self)),
                index as int,
                path@,
                mod_name@,
                game_name@,
            ),
    {
        let ghost q0 = queue_view(self.queue.items@);
        self.flags.processing = false;
        if index < self.queue.items.len() {
            let ghost (p, m, g) = (path@, mod_name@, game_name@);
            self.queue.finish_done(index, path, mod_name, game_name);
            assert(queue_view(self.queue.items@) =~= q0.update(index as int, done_item(q0[index as int], m, g, p)));
        }
        self.try_process_queue()
    }

    /// A download failed (see `download_failed_step`).
    pub fn on_download_failed(&mut self, index: usize, error: String) -> (r: Vec<Action>)
        ensures
            (flow_view(*final(self)), actions_view(r@)) == download_failed_step(
                flow_view(*old(self)),
                index as int,
                error@,
            ),
    {
        let ghost q0 = queue_view(self.queue.items@);
        self.flags.processing = false;
        if index < self.queue.items.len() {
            let ghost e = error@;
            self.queue.finish_failed(index, error);
            assert(queue_view(self.queue.items@) =~= q0.update(index as int, failed_item(q0[index as int], e)));
        }
        self.flags.failed_overlay_suppress = false;
        self.try_process_queue()
    }

    /// A SteamCMD session finished (see `batch_done_step`).
    pub fn on_batch_done(&mut self, results: &Vec<(usize, Result<(String, String, String), String>)>)
        ensures
            flow_view(*final(self)) == batch_done_step(flow_view(*old(self)), batch_results_view(results@)),
    {
        let ghost q0 = queue_view(self.queue.items@);
        let ghost gg0 = gg_items(self.queue.items@);
        let ghost rs = batch_results_view(results@);
        self.flags.processing = false;
        self.flags.force_steamcmd = false;
        self.flags.steamcmd_exhausted = true;
        let mut any_fail = false;
        let mut k: usize = 0;
        while k < results.len()
            invariant
                k <= results.len(),
                rs == batch_results_view(results@),
                (queue_view(self.queue.items@), any_fail) == batch_results_fold(q0, rs, k as int),
                gg_items(self.queue.items@) == gg0,
                self.flags == (QueueFlags {
                    processing: false,
                    force_steamcmd: false,
                    steamcmd_exhausted: true,
                    ..old(self).flags
                }),
                self.steamcmd_setup_status == old(self).steamcmd_setup_status,
            decreases results.len() - k,
        {
            let ghost before = queue_view(self.queue.items@);
            let index = results[k].0;
            if index < self.queue.items.len() {
                match &results[k].1 {
                    Ok((p, m, g)) => {
                        let ghost (pv, mv, gv) = (p@, m@, g@);
                        self.queue.finish_done(index, p.clone(), m.clone(), g.clone());
                        assert(queue_view(self.queue.items@) =~= before.update(
                            index as int,
                            done_item(before[index as int], mv, gv, pv),
                        ));
                    },
                    Err(_) => {
                        self.queue.finish_failed(
                            index,
                            String::from_str("None of the download methods worked (GGNetwork + SteamCMD)."),
                        );
                        assert(queue_view(self.queue.items@) =~= before.update(
                            index as int,
                            failed_item(before[index as int], no_download_method()),
                        ));
                        any_fail = true;
                    },
                }
            }
            k = k + 1;
        }
        assert(rs.len() == results@.len());
        if any_fail {
            self.flags.failed_overlay_suppress = false;
            self.maybe_show_failed_overlay();
        }
    }

    /// Preparing the SteamCMD session, the folder of the item at `index`
    /// could not be made: it fails at once with that error; when no item is
    /// left for the session, the SteamCMD-only mode ends.
    pub fn batch_dir_failed(&mut self, index: usize, error: String, jobs_left: usize)
        requires
            index < old(self).queue.items@.len(),
        ensures
            ({
                let s = flow_view(*old(self));
                let q = s.queue.update(index as int, failed_item(s.queue[index as int], error@));
                flow_view(*final(self)) == if jobs_left == 0 {
                    FlowState {
                        queue: q,
                        flags: overlay_checked(
                            QueueFlags { processing: false, force_steamcmd: false, ..s.flags },
                            q,
                        ),
                        ..s
                    }
                } else {
                    FlowState { queue: q, ..s }
                }
            }),
    {
        let ghost q0 = queue_view(self.queue.items@);
        let ghost e = error@;
        self.queue.finish_failed(index, error);
        assert(queue_view(self.queue.items@) =~= q0.update(index as int, failed_item(q0[index as int], e)));
        if jobs_left == 0 {
            self.flags.processing = false;
            self.flags.force_steamcmd = false;
            self.maybe_show_failed_overlay();
        }
    }
}

impl DownloadFlow {
    /// The index of the last item of this workshop id still waiting for
    /// its names.
    fn find_last_pending(&self, workshop_id: u64) -> (r: Option<usize>)
        ensures
            r matches Some(i) ==> last_pending(queue_view(self.queue.items@), workshop_id) == Some(i as int)
                && i < self.queue.items@.len(),
            r is None ==> last_pending(queue_view(self.queue.items@), workshop_id) is None,
    {
        let ghost q = queue_view(self.queue.items@);
        let l = chars_of("…");
        let mut k: usize = self.queue.items.len();
        while k > 0
            invariant
                k <= self.queue.items.len(),
                q == queue_view(self.queue.items@),
                l@ == loading(),
                forall|j: int| k <= j < q.len() ==> !(#[trigger] q[j].0 == workshop_id && q[j].1 == loading()),
            decreases k,
        {
            let i = k - 1;
            assert(q[i as int].0 == self.queue.items@[i as int].workshop_id);
            assert(q[i as int].1 == self.queue.items@[i as int].mod_name@);
            if self.queue.items[i].workshop_id == workshop_id && crate::text::eq_chars(
                &chars_of(self.queue.items[i].mod_name.as_str()),
                &l,
            ) {
                proof {
                    let w = choose|m: int|
                        0 <= m < q.len() && q[m].0 == workshop_id && q[m].1 == loading() && forall|j: int|
                            m < j < q.len() ==> !(#[trigger] q[j].0 == workshop_id && q[j].1 == loading());
                    if w < i {
                        assert(!(q[i as int].0 == workshop_id && q[i as int].1 == loading()));
                    } else if w > i {
                        assert(!(q[w].0 == workshop_id && q[w].1 == loading()));
                    }
                }
                return Some(i);
            }
            k = k - 1;
        }
        None
    }

    /// An item's names arrived (see `queue_info_step`).
    pub fn on_queue_info(
        &mut self,
        workshop_id: u64,
        mod_name: String,
        game_name: String,
        game_app_id: u32,
        gg_item: Option<GgItemResponse>,
        gg_available: bool,
    ) -> (r: Vec<Action>)
        ensures
            (flow_view(*final(self)), actions_view(r@)) == queue_info_step(
                flow_view(*old(self)),
                workshop_id,
                mod_name@,
                game_name@,
                game_app_id,
                gg_item,
                gg_available,
            ),
    {
        let ghost q0 = queue_view(self.queue.items@);
        let ghost gg0 = gg_items(self.queue.items@);
        let ghost (m, g) = (mod_name@, game_name@);
        let ghost gi = gg_item;
        match self.find_last_pending(workshop_id) {
            Some(i) => {
                let ghost before = self.queue.items@;
                let mut it = self.queue.items.remove(i);
                it.mod_name = mod_name;
                it.game_name = game_name;
                it.game_app_id = game_app_id;
                it.gg_item = gg_item;
                it.gg_available = Some(gg_available);
                self.queue.items.insert(i, it);
                assert(queue_view(self.queue.items@) =~= q0.update(
                    i as int,
                    resolved_item(q0[i as int], m, g, game_app_id, gg_available),
                )) by {
                    assert forall|j: int| 0 <= j < q0.len() && j != i implies #[trigger] self.queue.items@[j]
                        == before[j] by {}
                }
                assert(gg_items(self.queue.items@) =~= gg0.update(i as int, gi)) by {
                    assert forall|j: int| 0 <= j < q0.len() && j != i implies #[trigger] self.queue.items@[j]
                        == before[j] by {}
                }
            },
            None => {},
        }
        if self.flags.download_when_resolved && !self.queue.lookup_pending() {
            self.flags.download_when_resolved = false;
            return self.try_process_queue();
        }
        let r: Vec<Action> = Vec::new();
        assert(actions_view(r@) =~= seq![]);
        r
    }

    /// The URL field was submitted (`start_now`: `Direct Download` rather
    /// than `Add to Queue`): the item of a link or id is queued (see
    /// `enqueue_step`); other text changes nothing and is refused with a
    /// message for the field.
    pub fn enqueue_url(&mut self, input: &str, start_now: bool) -> (r: (Vec<Action>, Option<String>))
        ensures
            match crate::workshop::spec_parse_workshop_id(trim(input@)) {
                Some(id) => {
                    &&& (flow_view(*final(self)), actions_view(r.0@)) == enqueue_step(
                        flow_view(*old(self)),
                        id as u64,
                        start_now,
                    )
                    &&& r.1 is None
                },
                None => {
                    &&& flow_view(*final(self)) == flow_view(*old(self))
                    &&& actions_view(r.0@) == Seq::<ActionView>::empty()
                    &&& r.1 matches Some(m) && m@ == "Invalid Workshop URL or ID."@
                },
            },
    {
        let t = trim_str(input);
        match crate::workshop::parse_workshop_id(t.as_str()) {
            Some(id) => (self.enqueue(id, start_now), None),
            None => (no_actions(), Some(String::from_str("Invalid Workshop URL or ID."))),
        }
    }

    /// `Download Queue` can be pressed: some item is queued and nothing is
    /// downloading.
    pub fn can_start(&self) -> (r: bool)
        ensures
            r == (!self.flags.processing && exists|i: int|
                0 <= i < self.queue.items@.len() && #[trigger] queue_view(self.queue.items@)[i].4.0 == 0),
    {
        if self.flags.processing {
            return false;
        }
        let ghost q = queue_view(self.queue.items@);
        let mut i: usize = 0;
        while i < self.queue.items.len()
            invariant
                !self.flags.processing,
                i <= self.queue.items.len(),
                q == queue_view(self.queue.items@),
                forall|j: int| 0 <= j < i ==> #[trigger] q[j].4.0 != 0,
            decreases self.queue.items.len() - i,
        {
            let queued = match self.queue.items[i].status {
                QueueStatus::Queued => true,
                _ => false,
            };
            assert(q[i as int].4.0 == 0 <==> queued);
            if queued {
                assert(queue_view(self.queue.items@)[i as int].4.0 == 0);
                return true;
            }
            i = i + 1;
        }
        false
    }

    /// `Clear` can be pressed: some item is not downloading.
    pub fn can_clear(&self) -> (r: bool)
        ensures
            r == exists|i: int| 0 <= i < self.queue.items@.len() && #[trigger] queue_view(self.queue.items@)[i].4.0 != 1,
    {
        let ghost q = queue_view(self.queue.items@);
        let mut i: usize = 0;
        while i < self.queue.items.len()
            invariant
                i <= self.queue.items.len(),
                q == queue_view(self.queue.items@),
                forall|j: int| 0 <= j < i ==> #[trigger] q[j].4.0 == 1,
            decreases self.queue.items.len() - i,
        {
            let busy = match self.queue.items[i].status {
                QueueStatus::Downloading => true,
                _ => false,
            };
            assert(q[i as int].4.0 == 1 <==> busy);
            if !busy {
                return true;
            }
            i = i + 1;
        }
        false
    }

    /// Queues a workshop item (see `enqueue_step`).
    pub fn enqueue(&mut self, workshop_id: u64, start_now: bool) -> (r: Vec<Action>)
        ensures
            (flow_view(*final(self)), actions_view(r@)) == enqueue_step(flow_view(*old(self)), workshop_id, start_now),
    {
        self.flags.steamcmd_exhausted = false;
        self.queue.enqueue(workshop_id);
        let mut r = one_action(Action::Resolve(workshop_id));
        if start_now {
            self.flags.download_when_resolved = true;
            proof {
                let q = queue_view(self.queue.items@);
                assert(q[q.len() - 1].1 == loading());
            }
            if !self.queue.lookup_pending() {
                self.flags.download_when_resolved = false;
                let mut more = self.try_process_queue();
                r.append(&mut more);
            }
        }
        r
    }

    /// Queues every failed item again and runs them through one SteamCMD
    /// session (see `begin_retry_step`).
    pub fn begin_steamcmd_retry(&mut self) -> (r: Vec<Action>)
        ensures
            (flow_view(*final(self)), actions_view(r@)) == begin_retry_step(flow_view(*old(self))),
    {
        let ghost q0 = queue_view(self.queue.items@);
        let ghost gg0 = gg_items(self.queue.items@);
        let n = self.queue.items.len();
        let mut i: usize = 0;
        while i < n
            invariant
                n == self.queue.items@.len(),
                q0.len() == n,
                i <= n,
                gg_items(self.queue.items@) == gg0,
                queue_view(self.queue.items@) == Seq::new(
                    n as nat,
                    |j: int|
                        if j < i {
                            requeued(q0[j])
                        } else {
                            q0[j]
                        },
                ),
                self.flags == old(self).flags,
                self.steamcmd_setup_status == old(self).steamcmd_setup_status,
            decreases n - i,
        {
            let ghost before = self.queue.items@;
            let failed = match self.queue.items[i].status {
                QueueStatus::Failed(_) => true,
                _ => false,
            };
            assert(queue_view(before)[i as int] == q0[i as int]);
            assert(q0[i as int].4.0 == 3 <==> failed);
            if failed {
                let mut it = self.queue.items.remove(i);
                it.status = QueueStatus::Queued;
                self.queue.items.insert(i, it);
                assert forall|j: int| 0 <= j < n && j != i implies #[trigger] self.queue.items@[j] == before[j] by {}
                assert(queue_view(self.queue.items@)[i as int] == requeued(q0[i as int]));
                assert forall|j: int| 0 <= j < n && j != i implies #[trigger] queue_view(self.queue.items@)[j]
                    == queue_view(before)[j] by {}
                assert(gg_items(self.queue.items@) =~= gg_items(before));
            }
            assert(queue_view(self.queue.items@) =~= Seq::new(
                n as nat,
                |j: int|
                    if j < i + 1 {
                        requeued(q0[j])
                    } else {
                        q0[j]
                    },
            ));
            i = i + 1;
        }
        assert(queue_view(self.queue.items@) =~= q0.map_values(|it: ItemView| requeued(it)));
        self.flags.force_steamcmd = true;
        self.flags.steamcmd_exhausted = false;
        self.flags.failed_overlay_open = false;
        self.flags.failed_overlay_suppress = true;
        self.steamcmd_setup_status = None;
        self.try_process_queue()
    }

    /// Retry with SteamCMD was asked for (see `retry_step`); `installed`
    /// says whether SteamCMD is installed.
    pub fn retry_failed_with_steamcmd(&mut self, use_steamcmd: bool, installed: bool) -> (r: Vec<Action>)
        ensures
            (flow_view(*final(self)), actions_view(r@)) == retry_step(flow_view(*old(self)), use_steamcmd, installed),
    {
        if !use_steamcmd || self.steamcmd_setup_status.is_some() {
            let r: Vec<Action> = Vec::new();
            assert(actions_view(r@) =~= seq![]);
            return r;
        }
        if !installed {
            self.steamcmd_setup_status = Some(
                String::from_str("SteamCMD is not installed yet — downloading and deploying…"),
            );
            self.flags.pending_steamcmd_retry = true;
            return one_action(Action::EnsureSteamCmd);
        }
        self.begin_steamcmd_retry()
    }

    /// Installing SteamCMD finished (see `ensure_done_step`).
    pub fn on_steamcmd_ensure_done(&mut self, error: Option<String>) -> (r: Vec<Action>)
        ensures
            (flow_view(*final(self)), actions_view(r@)) == ensure_done_step(flow_view(*old(self)), opt_view(error)),
    {
        let pending = self.flags.pending_steamcmd_retry;
        self.flags.pending_steamcmd_retry = false;
        match error {
            Some(e) => {
                self.steamcmd_setup_status = Some(prefixed("SteamCMD setup failed: ", e.as_str()));
                let r: Vec<Action> = Vec::new();
                assert(actions_view(r@) =~= seq![]);
                r
            },
            None => {
                self.steamcmd_setup_status = None;
                if pending {
                    self.begin_steamcmd_retry()
                } else {
                    let r: Vec<Action> = Vec::new();
                    assert(actions_view(r@) =~= seq![]);
                    r
                }
            },
        }
    }

    /// What the open list of failed downloads shows (`use_steamcmd`: the
    /// SteamCMD download method is on); with no failed item the list closes
    /// and nothing is shown.
    pub fn failed_overlay(&mut self, use_steamcmd: bool) -> (r: Option<FailedOverlay>)
        ensures
            ({
                let q = queue_view(old(self).queue.items@);
                let f = old(self).flags;
                &&& r is None <==> !has_failed(q)
                &&& flow_view(*final(self)) == if has_failed(q) {
                    flow_view(*old(self))
                } else {
                    FlowState { flags: QueueFlags { failed_overlay_open: false, ..f }, ..flow_view(*old(self)) }
                }
                &&& r matches Some(o) ==> {
                    &&& rows_view(o.rows@) == failed_rows(q, q.len() as int)
                    &&& o.retry_offered == (use_steamcmd && !f.steamcmd_exhausted)
                    &&& o.retry_enabled == !f.pending_steamcmd_retry
                    &&& o.exhausted == f.steamcmd_exhausted
                    &&& opt_view(o.status) == if f.pending_steamcmd_retry {
                        opt_view(old(self).steamcmd_setup_status)
                    } else {
                        None
                    }
                }
            }),
    {
        let ghost q = queue_view(self.queue.items@);
        let mut rows: Vec<(String, String, u64)> = Vec::new();
        let n = self.queue.items.len();
        let mut i: usize = 0;
        while i < n
            invariant
                n == self.queue.items@.len(),
                q == queue_view(self.queue.items@),
                i <= n,
                rows_view(rows@) == failed_rows(q, i as int),
            decreases n - i,
        {
            let it = &self.queue.items[i];
            let failed = match it.status {
                QueueStatus::Failed(_) => true,
                _ => false,
            };
            assert(q[i as int].4.0 == 3 <==> failed);
            if failed {
                rows.push((it.mod_name.clone(), it.game_name.clone(), it.workshop_id));
                assert(rows_view(rows@) =~= failed_rows(q, i as int).push((q[i as int].1, q[i as int].3, q[i as int].0)));
            }
            i = i + 1;
        }
        proof {
            lemma_failed_rows_empty(q, q.len() as int);
        }
        if rows.len() == 0 {
            self.flags.failed_overlay_open = false;
            return None;
        }
        let status = if self.flags.pending_steamcmd_retry {
            self.steamcmd_setup_status.clone()
        } else {
            None
        };
        Some(
            FailedOverlay {
                rows,
                retry_offered: use_steamcmd && !self.flags.steamcmd_exhausted,
                retry_enabled: !self.flags.pending_steamcmd_retry,
                exhausted: self.flags.steamcmd_exhausted,
                status,
            },
        )
    }

    /// SteamCMD is being downloaded and deployed: the status line says so.
    pub fn steamcmd_busy(&self) -> (r: bool)
        ensures
            r == steamcmd_busy_status(opt_view(self.steamcmd_setup_status)),
    {
        match &self.steamcmd_setup_status {
            Some(st) => {
                let v = chars_of(st.as_str());
                contains_exec(&v, &chars_of("Downloading")) || contains_exec(&v, &chars_of("deploying"))
            },
            None => false,
        }
    }

    /// `Install / Update SteamCMD` was pressed (see `install_step`).
    pub fn install_steamcmd(&mut self) -> (r: Vec<Action>)
        ensures
            (flow_view(*final(self)), actions_view(r@)) == install_step(flow_view(*old(self))),
    {
        if self.steamcmd_busy() {
            return no_actions();
        }
        self.steamcmd_setup_status = Some(String::from_str("Downloading and deploying SteamCMD…"));
        one_action(Action::EnsureSteamCmd)
    }

    /// Removing SteamCMD finished, with its error if any (see
    /// `removed_step`).
    pub fn on_steamcmd_removed(&mut self, error: Option<String>)
        ensures
            flow_view(*final(self)) == removed_step(flow_view(*old(self)), opt_view(error)),
    {
        match error {
            Some(e) => {
                self.steamcmd_setup_status = Some(prefixed("Remove failed: ", e.as_str()));
            },
            None => {
                self.steamcmd_setup_status = None;
                self.flags.pending_steamcmd_retry = false;
            },
        }
    }

    /// Takes the item at `index` off the queue when it is queued or failed.
    pub fn remove_queue_item(&mut self, index: usize)
        ensures
            ({
                let q = queue_view(old(self).queue.items@);
                let gg = gg_items(old(self).queue.items@);
                &&& queue_view(final(self).queue.items@) == if 0 <= index < q.len() && removable(q[index as int]) {
                    q.remove(index as int)
                } else {
                    q
                }
                &&& gg_items(final(self).queue.items@) == if 0 <= index < q.len() && removable(q[index as int]) {
                    gg.remove(index as int)
                } else {
                    gg
                }
            }),
            final(self).flags == old(self).flags,
            final(self).steamcmd_setup_status == old(self).steamcmd_setup_status,
    {
        if index < self.queue.items.len() {
            let ghost q = queue_view(self.queue.items@);
            let is_removable = match self.queue.items[index].status {
                QueueStatus::Queued => true,
                QueueStatus::Failed(_) => true,
                _ => false,
            };
            assert(is_removable == removable(q[index as int]));
            let ghost gg = gg_items(self.queue.items@);
            if is_removable {
                let _ = self.queue.items.remove(index);
                assert(queue_view(self.queue.items@) =~= q.remove(index as int));
                assert(gg_items(self.queue.items@) =~= gg.remove(index as int));
            }
        }
    }

    /// Empties the queue but for the running downloads; the SteamCMD-only
    /// mode ends and the list of failures closes.
    pub fn clear_download_queue(&mut self)
        ensures
            ({
                let q = queue_view(old(self).queue.items@);
                &&& queue_view(final(self).queue.items@) == downloading_only(q, q.len() as int)
                &&& gg_items(final(self).queue.items@) == gg_downloading_only(
                    q,
                    gg_items(old(self).queue.items@),
                    q.len() as int,
                )
            }),
            final(self).flags == (QueueFlags {
                download_when_resolved: false,
                force_steamcmd: false,
                steamcmd_exhausted: false,
                failed_overlay_open: false,
                ..old(self).flags
            }),
            final(self).steamcmd_setup_status == old(self).steamcmd_setup_status,
    {
        let ghost q0 = queue_view(self.queue.items@);
        let ghost gg0 = gg_items(self.queue.items@);
        let total: usize = self.queue.items.len();
        let mut rest: Vec<QueueItem> = Vec::new();
        std::mem::swap(&mut rest, &mut self.queue.items);
        let ghost n = q0.len();
        let mut i: usize = 0;
        while rest.len() > 0
            invariant
                n == q0.len(),
                n == total,
                i <= n,
                queue_view(rest@) == q0.skip(i as int),
                queue_view(self.queue.items@) == downloading_only(q0, i as int),
                gg0.len() == n,
                gg_items(rest@) == gg0.skip(i as int),
                gg_items(self.queue.items@) == gg_downloading_only(q0, gg0, i as int),
                self.flags == old(self).flags,
                self.steamcmd_setup_status == old(self).steamcmd_setup_status,
            decreases rest.len(),
        {
            let ghost r0 = rest@;
            let ghost kept = self.queue.items@;
            assert(queue_view(r0).len() == r0.len());
            assert(i < n);
            assert(queue_view(r0)[0] == q0.skip(i as int)[0]);
            assert(queue_view(r0)[0] == q0[i as int]);
            let it = rest.remove(0);
            assert(gg_items(r0)[0] == gg0[i as int]);
            assert(gg_items(rest@) =~= gg0.skip(i + 1)) by {
                assert(rest@ =~= r0.subrange(1, r0.len() as int));
                assert forall|j: int| 0 <= j < rest@.len() implies #[trigger] gg_items(rest@)[j] == gg0.skip(
                    i + 1,
                )[j] by {
                    assert(gg_items(rest@)[j] == gg_items(r0)[j + 1]);
                }
            }
            assert(queue_view(rest@) =~= q0.skip(i + 1)) by {
                assert(rest@ =~= r0.subrange(1, r0.len() as int));
                assert forall|j: int| 0 <= j < rest@.len() implies #[trigger] queue_view(rest@)[j] == q0.skip(
                    i + 1,
                )[j] by {
                    assert(queue_view(rest@)[j] == queue_view(r0)[j + 1]);
                }
            }
            let running = match it.status {
                QueueStatus::Downloading => true,
                _ => false,
            };
            if running {
                self.queue.items.push(it);
                assert(queue_view(self.queue.items@) =~= queue_view(kept).push(q0[i as int]));
                assert(gg_items(self.queue.items@) =~= gg_items(kept).push(gg0[i as int]));
            }
            i = i + 1;
        }
        assert(q0.skip(i as int).len() == 0);
        self.flags.download_when_resolved = false;
        self.flags.force_steamcmd = false;
        self.flags.steamcmd_exhausted = false;
        self.flags.failed_overlay_open = false;
    }
}

// ---------------------------------------------------------------------------
// Importing and pasting workshop lists
// ---------------------------------------------------------------------------

/// A workshop id just queued: placeholder names, queued.
pub open spec fn new_item(id: u64) -> ItemView {
    (id, loading(), 0u32, loading(), (0, seq![]), None, None)
}

/// Queues the ids in order (none starts yet); their names are looked up.
pub open spec fn enqueue_all_step(s: FlowState, ids: Seq<u64>) -> (FlowState, Seq<ActionView>) {
    if ids.len() == 0 {
        (s, seq![])
    } else {
        (
            FlowState {
                queue: s.queue + ids.map_values(|id: u64| new_item(id)),
                gg: s.gg + ids.map_values(|id: u64| None::<GgItemResponse>),
                flags: QueueFlags { steamcmd_exhausted: false, ..s.flags },
                ..s
            },
            ids.map_values(|id: u64| ActionView::Resolve(id)),
        )
    }
}

/// `Imported <n> item(s), skipped <k> invalid line(s).`
pub open spec fn imported_message(n: nat, skipped: nat) -> Seq<char> {
    "Imported "@ + decimal(n) + " item(s), skipped "@ + decimal(skipped) + " invalid line(s)."@
}

/// `Added <n> item(s), skipped <k> invalid line(s).`
pub open spec fn added_message(n: nat, skipped: nat) -> Seq<char> {
    "Added "@ + decimal(n) + " item(s), skipped "@ + decimal(skipped) + " invalid line(s)."@
}

/// What a paste into the workshop window did.
#[derive(Debug, PartialEq, Eq)]
pub enum PasteOutcome {
    /// Left to the URL field (one id typed into the focused field).
    Ignored,
    /// Nothing queued; the message to show, if any.
    Rejected(Option<String>),
    /// Queued; the notice about skipped lines, if any; and whether the URL
    /// field is to be cleared.
    Added(Option<String>, bool),
}

/// `n` and `k` as `<prefix><n><middle><k><suffix>`.
fn counts_text(prefix: &str, n: usize, middle: &str, k: usize, suffix: &str) -> (r: String)
    ensures
        r@ == prefix@ + decimal(n as nat) + middle@ + decimal(k as nat) + suffix@,
{
    let mut v = chars_of(prefix);
    push_decimal(&mut v, n as u64);
    extend_chars(&mut v, &chars_of(middle));
    push_decimal(&mut v, k as u64);
    extend_chars(&mut v, &chars_of(suffix));
    string_of(&v)
}

impl DownloadFlow {
    /// Queues the ids in order (see `enqueue_all_step`).
    pub fn enqueue_all(&mut self, ids: &Vec<u64>) -> (r: Vec<Action>)
        ensures
            (flow_view(*final(self)), actions_view(r@)) == enqueue_all_step(flow_view(*old(self)), ids@),
    {
        let ghost s0 = flow_view(*self);
        let mut acts: Vec<Action> = Vec::new();
        let mut k: usize = 0;
        assert(s0.queue + ids@.take(0).map_values(|id: u64| new_item(id)) =~= s0.queue);
        assert(s0.gg + ids@.take(0).map_values(|id: u64| None::<GgItemResponse>) =~= s0.gg);
        while k < ids.len()
            invariant
                k <= ids.len(),
                queue_view(self.queue.items@) == s0.queue + ids@.take(k as int).map_values(|id: u64| new_item(id)),
                gg_items(self.queue.items@) == s0.gg + ids@.take(k as int).map_values(|id: u64| None::<GgItemResponse>),
                self.flags == (if k == 0 {
                    s0.flags
                } else {
                    QueueFlags { steamcmd_exhausted: false, ..s0.flags }
                }),
                opt_view(self.steamcmd_setup_status) == s0.status,
                actions_view(acts@) == ids@.take(k as int).map_values(|id: u64| ActionView::Resolve(id)),
            decreases ids.len() - k,
        {
            let ghost before = acts@;
            let mut more = self.enqueue(ids[k], false);
            acts.append(&mut more);
            proof {
                assert(ids@.take(k + 1) =~= ids@.take(k as int).push(ids@[k as int]));
                assert(ids@.take(k + 1).map_values(|id: u64| new_item(id)) =~= ids@.take(k as int).map_values(
                    |id: u64| new_item(id),
                ).push(new_item(ids@[k as int])));
                assert(queue_view(self.queue.items@) =~= s0.queue + ids@.take(k + 1).map_values(
                    |id: u64| new_item(id),
                ));
                assert(ids@.take(k + 1).map_values(|id: u64| None::<GgItemResponse>) =~= ids@.take(k as int).map_values(
                    |id: u64| None::<GgItemResponse>,
                ).push(None));
                assert(gg_items(self.queue.items@) =~= s0.gg + ids@.take(k + 1).map_values(
                    |id: u64| None::<GgItemResponse>,
                ));
                assert(actions_view(acts@) =~= actions_view(before) + seq![ActionView::Resolve(ids@[k as int])]);
                assert(ids@.take(k + 1).map_values(|id: u64| ActionView::Resolve(id)) =~= ids@.take(
                    k as int,
                ).map_values(|id: u64| ActionView::Resolve(id)).push(ActionView::Resolve(ids@[k as int])));
            }
            k = k + 1;
        }
        assert(ids@.take(ids@.len() as int) =~= ids@);
        acts
    }

    /// Imports a pasted list of links or ids, one per line: with none, the
    /// error to show; otherwise the items are queued, downloading starts
    /// once their names are known when `start_now`, and skipped lines are
    /// mentioned.
    pub fn import_workshop_list(&mut self, text: &str, start_now: bool) -> (r: (Vec<Action>, Result<
        Option<String>,
        String,
    >))
        ensures
            ({
                let (ids, skipped) = crate::workshop::spec_parse_workshop_id_list(text@);
                let (s1, a1) = enqueue_all_step(flow_view(*old(self)), ids);
                &&& ids.len() == 0 ==> flow_view(*final(self)) == flow_view(*old(self)) && actions_view(r.0@)
                    == Seq::<ActionView>::empty() && (r.1 matches Err(e) && e@ == (if skipped > 0 {
                    "No valid Workshop URLs or IDs found."@
                } else {
                    "Paste at least one URL or ID per line."@
                }))
                &&& ids.len() > 0 ==> {
                    &&& flow_view(*final(self)) == (if start_now {
                        FlowState { flags: QueueFlags { download_when_resolved: true, ..s1.flags }, ..s1 }
                    } else {
                        s1
                    })
                    &&& actions_view(r.0@) == a1
                    &&& r.1 matches Ok(notice) && (if skipped > 0 {
                        notice matches Some(m) && m@ == imported_message(ids.len(), skipped)
                    } else {
                        notice is None
                    })
                }
            }),
    {
        let (ids, skipped) = crate::workshop::parse_workshop_id_list(text);
        if ids.len() == 0 {
            let e = if skipped > 0 {
                String::from_str("No valid Workshop URLs or IDs found.")
            } else {
                String::from_str("Paste at least one URL or ID per line.")
            };
            return (no_actions(), Err(e));
        }
        let acts = self.enqueue_all(&ids);
        if start_now {
            self.flags.download_when_resolved = true;
            proof {
                let q = queue_view(self.queue.items@);
                assert(q[q.len() - 1].1 == loading());
            }
            if !self.queue.lookup_pending() {
                self.flags.download_when_resolved = false;
            }
        }
        let notice = if skipped > 0 {
            Some(counts_text("Imported ", ids.len(), " item(s), skipped ", skipped, " invalid line(s)."))
        } else {
            None
        };
        (acts, Ok(notice))
    }

    /// A text was pasted into the workshop window. With no id in it, the
    /// paste is rejected (with a message unless the URL field has the
    /// focus); a single line with one id typed into the focused field is
    /// left to the field; otherwise its items are queued.
    pub fn paste_workshop_text(&mut self, text: &str, field_focused: bool) -> (r: (Vec<Action>, PasteOutcome))
        ensures
            ({
                let (ids, skipped) = crate::workshop::spec_parse_workshop_id_list(text@);
                let multi = crate::text::contains(text@, seq!['\n']) || crate::text::contains(text@, seq!['\r']);
                if ids.len() == 0 {
                    &&& flow_view(*final(self)) == flow_view(*old(self))
                    &&& actions_view(r.0@) == Seq::<ActionView>::empty()
                    &&& r.1 matches PasteOutcome::Rejected(m) && (if field_focused {
                        m is None
                    } else {
                        m matches Some(t) && t@ == "Clipboard has no valid Workshop URLs or IDs."@
                    })
                } else if field_focused && !multi && ids.len() == 1 {
                    &&& flow_view(*final(self)) == flow_view(*old(self))
                    &&& actions_view(r.0@) == Seq::<ActionView>::empty()
                    &&& r.1 == PasteOutcome::Ignored
                } else {
                    &&& (flow_view(*final(self)), actions_view(r.0@)) == enqueue_all_step(flow_view(*old(self)), ids)
                    &&& r.1 matches PasteOutcome::Added(notice, clear) && clear == field_focused && (if skipped > 0 {
                        notice matches Some(m) && m@ == added_message(ids.len(), skipped)
                    } else {
                        notice is None
                    })
                }
            }),
    {
        let v = chars_of(text);
        let mut nl: Vec<char> = Vec::new();
        nl.push('\n');
        let mut cr: Vec<char> = Vec::new();
        cr.push('\r');
        let multi = crate::text::contains_exec(&v, &nl) || crate::text::contains_exec(&v, &cr);
        assert(nl@ =~= seq!['\n']);
        assert(cr@ =~= seq!['\r']);
        let (ids, skipped) = crate::workshop::parse_workshop_id_list(text);
        if ids.len() == 0 {
            let m = if field_focused {
                None
            } else {
                Some(String::from_str("Clipboard has no valid Workshop URLs or IDs."))
            };
            return (no_actions(), PasteOutcome::Rejected(m));
        }
        if field_focused && !multi && ids.len() == 1 {
            return (no_actions(), PasteOutcome::Ignored);
        }
        let acts = self.enqueue_all(&ids);
        let notice = if skipped > 0 {
            Some(counts_text("Added ", ids.len(), " item(s), skipped ", skipped, " invalid line(s)."))
        } else {
            None
        };
        (acts, PasteOutcome::Added(notice, field_focused))
    }
}

// ---------------------------------------------------------------------------
// The "Send to" checkbox
// ---------------------------------------------------------------------------

/// The "Send to" checkbox of the settings, with its notice (text, and
/// whether it is an error).
pub struct SendToUi {
    pub enabled: bool,
    pub stale: bool,
    pub notice: Option<(String, bool)>,
}

/// The notice as values.
pub open spec fn notice_view(n: Option<(String, bool)>) -> Option<(Seq<char>, bool)> {
    match n {
        Some((t, e)) => Some((t@, e)),
        None => None,
    }
}

impl SendToUi {
    /// The checkbox as the entry's status says: ticked unless disabled,
    /// stale when it points at a moved executable.
    pub fn new(status: SendToStatus) -> (r: Self)
        ensures
            r.enabled == !(status is Disabled),
            r.stale == (status is Stale),
            r.notice is None,
    {
        let (enabled, stale) = match status {
            SendToStatus::Disabled => (false, false),
            SendToStatus::Enabled => (true, false),
            SendToStatus::Stale => (true, true),
        };
        SendToUi { enabled, stale, notice: None }
    }

    /// The checkbox was toggled (to `self.enabled`) and the entry enabled
    /// or disabled accordingly, with this result.
    pub fn on_checkbox_changed(&mut self, result: Result<(), String>)
        ensures
            old(self).enabled ==> match result {
                Ok(()) => final(self).enabled && !final(self).stale && notice_view(final(self).notice) == Some(
                    ("Right-click any game .exe → \"Send to\" → GoldbergDrop."@, false),
                ),
                Err(e) => !final(self).enabled && final(self).stale == old(self).stale && notice_view(
                    final(self).notice,
                ) == Some(("Couldn't enable Send to: "@ + e@, true)),
            },
            !old(self).enabled ==> !final(self).enabled && match result {
                Ok(()) => !final(self).stale && final(self).notice is None,
                Err(e) => final(self).stale == old(self).stale && notice_view(final(self).notice) == Some(
                    ("Couldn't disable Send to: "@ + e@, true),
                ),
            },
    {
        if self.enabled {
            match result {
                Ok(()) => {
                    self.stale = false;
                    self.notice = Some(
                        (String::from_str("Right-click any game .exe → \"Send to\" → GoldbergDrop."), false),
                    );
                },
                Err(e) => {
                    self.enabled = false;
                    self.notice = Some((prefixed("Couldn't enable Send to: ", e.as_str()), true));
                },
            }
        } else {
            match result {
                Ok(()) => {
                    self.stale = false;
                    self.notice = None;
                },
                Err(e) => {
                    self.notice = Some((prefixed("Couldn't disable Send to: ", e.as_str()), true));
                },
            }
        }
    }

    /// The stale entry was pointed at this executable again, with this
    /// result.
    pub fn on_refresh(&mut self, result: Result<(), String>)
        ensures
            match result {
                Ok(()) => final(self).enabled && !final(self).stale && notice_view(final(self).notice) == Some(
                    ("\"Send to\" is fixed."@, false),
                ),
                Err(e) => final(self).enabled == old(self).enabled && final(self).stale == old(self).stale
                    && notice_view(final(self).notice) == Some(("Couldn't fix \"Send to\": "@ + e@, true)),
            },
    {
        match result {
            Ok(()) => {
                self.stale = false;
                self.enabled = true;
                self.notice = Some((String::from_str("\"Send to\" is fixed."), false));
            },
            Err(e) => {
                self.notice = Some((prefixed("Couldn't fix \"Send to\": ", e.as_str()), true));
            },
        }
    }
}

// ---------------------------------------------------------------------------
// The whole window
// ---------------------------------------------------------------------------

/// The search found several games: the list is shown with an empty App ID
/// field.
pub open spec fn ambiguous_post(prev: SetupFlow, next: SetupFlow, list: Vec<SteamApp>) -> bool {
    &&& next.candidates == list
    &&& next.manual_id_input@.len() == 0
    &&& next.manual_id_error is None
    &&& next.selected_match_name is None
    &&& next.screen == Screen::ChooseMatch
    &&& next.exe_path == prev.exe_path
    &&& next.working_message == prev.working_message
    &&& next.result_message == prev.result_message
}

/// The search found nothing: the App ID is asked for.
pub open spec fn not_found_post(prev: SetupFlow, next: SetupFlow) -> bool {
    &&& next.manual_id_input@.len() == 0
    &&& next.manual_id_error is None
    &&& next.screen == Screen::ManualId
    &&& next.exe_path == prev.exe_path
    &&& next.candidates == prev.candidates
    &&& next.selected_match_name == prev.selected_match_name
    &&& next.working_message == prev.working_message
    &&& next.result_message == prev.result_message
}

/// The window's state: setting a game up, and the workshop downloads.
pub struct Session {
    pub setup: SetupFlow,
    pub downloads: DownloadFlow,
}

impl Session {
    /// The window at start; a file passed on the command line (or by "Send
    /// to") is taken at once.
    pub fn new(initial_path: Option<&str>) -> (r: (Session, Vec<Action>))
        ensures
            r.0.downloads.flags == DownloadFlow::new_flags(),
            flow_view(r.0.downloads).queue.len() == 0,
            r.0.downloads.steamcmd_setup_status is None,
            initial_path is None ==> r.0.setup.screen == Screen::Idle && r.0.setup.exe_path is None
                && actions_view(r.1@) == Seq::<ActionView>::empty(),
            initial_path matches Some(p) ==> ({
                (is_exe_path(p@) ==> r.0.setup.screen == Screen::Working && (r.0.setup.exe_path matches Some(e)
                    && e@ == p@) && r.0.setup.working_message@ == searching_message(p@) && actions_view(r.1@)
                    == seq![ActionView::Search(p@)]) && (!is_exe_path(p@) ==> r.0.setup.screen == Screen::Error
                    && r.0.setup.exe_path is None && r.0.setup.result_message@ == "Please select a valid .exe file."@
                    && actions_view(r.1@) == Seq::<ActionView>::empty())
            }),
    {
        let mut setup = SetupFlow::new();
        let actions = match initial_path {
            Some(p) => setup.accept_path(p),
            None => no_actions(),
        };
        (Session { setup, downloads: DownloadFlow::new() }, actions)
    }

    /// Handles one message of the background work and gives the work to
    /// start next.
    pub fn on_message(&mut self, msg: WorkerMsg) -> (r: Vec<Action>)
        ensures
            match msg {
                WorkerMsg::SearchFound(app) => start_apply_post(
                    old(self).setup,
                    final(self).setup,
                    app.app_id,
                    app.name@,
                    actions_view(r@),
                ) && final(self).downloads == old(self).downloads,
                WorkerMsg::SearchAmbiguous(list) => ambiguous_post(old(self).setup, final(self).setup, list)
                    && final(self).downloads == old(self).downloads && actions_view(r@) == Seq::<
                    ActionView,
                >::empty(),
                WorkerMsg::SearchNotFound => not_found_post(old(self).setup, final(self).setup)
                    && final(self).downloads == old(self).downloads && actions_view(r@) == Seq::<
                    ActionView,
                >::empty(),
                WorkerMsg::SearchFailed(e) => failed_with(old(self).setup, final(self).setup, "Search failed: "@ + e@)
                    && final(self).downloads == old(self).downloads && actions_view(r@) == Seq::<
                    ActionView,
                >::empty(),
                WorkerMsg::ApplyDone { app_id, name, dll_swapped, dlc_count, achievement_count } => apply_done_post(
                    old(self).setup,
                    final(self).setup,
                    app_id,
                    name@,
                    dll_swapped,
                    dlc_count as nat,
                    achievement_count as nat,
                    actions_view(r@),
                ) && final(self).downloads == old(self).downloads,
                WorkerMsg::ApplyFailed(e) => failed_with(old(self).setup, final(self).setup, "Setup failed: "@ + e@)
                    && final(self).downloads == old(self).downloads && actions_view(r@) == Seq::<
                    ActionView,
                >::empty(),
                WorkerMsg::WorkshopDownloadDone { index, path, mod_name, game_name } => (
                    flow_view(final(self).downloads),
                    actions_view(r@),
                ) == download_done_step(flow_view(old(self).downloads), index as int, path@, mod_name@, game_name@)
                    && final(self).setup == old(self).setup,
                WorkerMsg::WorkshopFailed { index, error } => (flow_view(final(self).downloads), actions_view(r@))
                    == download_failed_step(flow_view(old(self).downloads), index as int, error@) && final(self).setup == old(self).setup,
                WorkerMsg::WorkshopSteamCmdBatch { results } => flow_view(final(self).downloads)
                    == batch_done_step(flow_view(old(self).downloads), batch_results_view(results@))
                    && final(self).setup == old(self).setup && actions_view(r@) == Seq::<ActionView>::empty(),
                WorkerMsg::WorkshopQueueInfo {
                    workshop_id,
                    mod_name,
                    game_name,
                    game_app_id,
                    gg_item,
                    gg_available,
                } => (flow_view(final(self).downloads), actions_view(r@)) == queue_info_step(
                    flow_view(old(self).downloads),
                    workshop_id,
                    mod_name@,
                    game_name@,
                    game_app_id,
                    gg_item,
                    gg_available,
                ) && final(self).setup == old(self).setup,
                WorkerMsg::SteamCmdEnsureDone { error } => (flow_view(final(self).downloads), actions_view(r@))
                    == ensure_done_step(flow_view(old(self).downloads), opt_view(error)) && final(self).setup == old(self).setup,
            },
    {
        match msg {
            WorkerMsg::SearchFound(app) => self.setup.on_search_found(app),
            WorkerMsg::SearchAmbiguous(list) => {
                self.setup.on_search_ambiguous(list);
                no_actions()
            },
            WorkerMsg::SearchNotFound => {
                self.setup.on_search_not_found();
                no_actions()
            },
            WorkerMsg::SearchFailed(e) => {
                self.setup.on_search_failed(e.as_str());
                no_actions()
            },
            WorkerMsg::ApplyDone { app_id, name, dll_swapped, dlc_count, achievement_count } => self.setup.on_apply_done(
                app_id,
                name,
                dll_swapped,
                dlc_count,
                achievement_count,
            ),
            WorkerMsg::ApplyFailed(e) => {
                self.setup.on_apply_failed(e.as_str());
                no_actions()
            },
            WorkerMsg::WorkshopDownloadDone { index, path, mod_name, game_name } => self.downloads.on_download_done(
                index,
                path,
                mod_name,
                game_name,
            ),
            WorkerMsg::WorkshopFailed { index, error } => self.downloads.on_download_failed(index, error),
            WorkerMsg::WorkshopSteamCmdBatch { results } => {
                self.downloads.on_batch_done(&results);
                no_actions()
            },
            WorkerMsg::WorkshopQueueInfo { workshop_id, mod_name, game_name, game_app_id, gg_item, gg_available } => {
                self.downloads.on_queue_info(workshop_id, mod_name, game_name, game_app_id, gg_item, gg_available)
            },
            WorkerMsg::SteamCmdEnsureDone { error } => self.downloads.on_steamcmd_ensure_done(error),
        }
    }
}

// ---------------------------------------------------------------------------
// Polishing resolved names
// ---------------------------------------------------------------------------

/// The game name is a placeholder (`Unknown game` or `App <id>`) that the
/// store's name for a known App ID replaces.
pub open spec fn needs_game_name(game_app_id: u32, game_name: Seq<char>) -> bool {
    game_app_id != 0 && (game_name == "Unknown game"@ || starts_with(game_name, "App "@))
}

/// The names after polishing: the store's game name (`looked_up`, when
/// found) replaces a placeholder, and GGNetwork's mod name (when not
/// blank) replaces `Item <id>`.
pub open spec fn spec_polish_names(
    workshop_id: nat,
    mod_name: Seq<char>,
    game_name: Seq<char>,
    game_app_id: u32,
    gg_item: Option<GgItemResponse>,
    looked_up: Option<Seq<char>>,
) -> (Seq<char>, Seq<char>) {
    let g = if needs_game_name(game_app_id, game_name) && looked_up is Some {
        looked_up.unwrap()
    } else {
        game_name
    };
    let m = if mod_name == item_label(workshop_id) && (gg_item matches Some(it) && trim(it.name@).len() > 0) {
        gg_item.unwrap().name@
    } else {
        mod_name
    };
    (m, g)
}

/// Whether the store's name for the game is worth looking up.
pub fn game_name_needed(game_app_id: u32, game_name: &str) -> (r: bool)
    ensures
        r == needs_game_name(game_app_id, game_name@),
{
    if game_app_id == 0 {
        return false;
    }
    let g = chars_of(game_name);
    crate::text::eq_chars(&g, &chars_of("Unknown game")) || starts_with_exec(&g, &chars_of("App "))
}

/// Whether a SteamCMD status line is shown as an error.
pub fn steamcmd_status_is_error(status: &str) -> (r: bool)
    ensures
        r == status_is_error(status@),
{
    let v = chars_of(status);
    contains_exec(&v, &chars_of("failed")) || contains_exec(&v, &chars_of("Remove failed"))
}

/// Polishes resolved names (see `spec_polish_names`).
pub fn polish_names(
    workshop_id: u64,
    mod_name: String,
    game_name: String,
    game_app_id: u32,
    gg_item: &Option<GgItemResponse>,
    looked_up: Option<String>,
) -> (r: (String, String))
    ensures
        (r.0@, r.1@) == spec_polish_names(
            workshop_id as nat,
            mod_name@,
            game_name@,
            game_app_id,
            *gg_item,
            opt_view(looked_up),
        ),
{
    let g = if game_name_needed(game_app_id, game_name.as_str()) {
        match looked_up {
            Some(n) => n,
            None => game_name,
        }
    } else {
        game_name
    };
    let label = item_label_string(workshop_id);
    let is_label = crate::text::eq_chars(&chars_of(mod_name.as_str()), &chars_of(label.as_str()));
    let m = if is_label {
        match gg_item {
            Some(it) => if chars_of(trim_str(it.name.as_str()).as_str()).len() > 0 {
                it.name.clone()
            } else {
                mod_name
            },
            None => mod_name,
        }
    } else {
        mod_name
    };
    (m, g)
}

// ---------------------------------------------------------------------------
// Laws
// ---------------------------------------------------------------------------

/// Once the user closed the list of failed downloads, finished downloads,
/// resolved names and queue moves keep it closed; only a new failure may
/// open it again.
pub proof fn law_closed_failure_list_stays_closed(
    s: FlowState,
    index: int,
    path: Seq<char>,
    m: Seq<char>,
    g: Seq<char>,
    id: u64,
    app: u32,
    item: Option<GgItemResponse>,
    avail: bool,
)
    requires
        s.flags.failed_overlay_suppress,
        !s.flags.failed_overlay_open,
    ensures
        !process_step(s).0.flags.failed_overlay_open,
        !download_done_step(s, index, path, m, g).0.flags.failed_overlay_open,
        !queue_info_step(s, id, m, g, app, item, avail).0.flags.failed_overlay_open,
{
}

/// When some item among the first `n` is queued, a first one is.
proof fn lemma_min_queued(q: Seq<ItemView>, n: int)
    requires
        0 <= n <= q.len(),
        exists|i: int| 0 <= i < n && q[i].4.0 == 0,
    ensures
        exists|k: int| 0 <= k < q.len() && q[k].4.0 == 0 && forall|j: int| 0 <= j < k ==> #[trigger] q[j].4.0 != 0,
    decreases n,
{
    if exists|i: int| 0 <= i < n - 1 && q[i].4.0 == 0 {
        lemma_min_queued(q, n - 1);
    } else {
        let k = n - 1;
        assert(q[k].4.0 == 0);
        assert(forall|j: int| 0 <= j < k ==> #[trigger] q[j].4.0 != 0);
    }
}

/// The first queued item is in the queue and queued.
proof fn lemma_first_queued(q: Seq<ItemView>)
    ensures
        first_queued(q) matches Some(k) ==> 0 <= k < q.len() && q[k].4.0 == 0,
{
    if exists|i: int| 0 <= i < q.len() && q[i].4.0 == 0 {
        lemma_min_queued(q, q.len() as int);
    }
}

/// Moving the queue on keeps its length and every item's names.
proof fn lemma_process_keeps_names(s: FlowState)
    ensures
        process_step(s).0.queue.len() == s.queue.len(),
        forall|i: int| 0 <= i < s.queue.len() ==> #[trigger] process_step(s).0.queue[i].1 == s.queue[i].1,
{
    lemma_first_queued(s.queue);
}

/// `b` differs from `a` at most at index `k`.
pub open spec fn differs_at_most_at(a: Seq<ItemView>, b: Seq<ItemView>, k: int) -> bool {
    a.len() == b.len() && forall|i: int| 0 <= i < a.len() && i != k ==> #[trigger] b[i] == a[i]
}

/// With a download running, moving the queue on changes nothing; otherwise
/// (outside the SteamCMD-only mode) it starts at most one download and
/// leaves every other item as it was.
pub proof fn law_one_download_at_a_time(s: FlowState)
    ensures
        s.flags.processing ==> process_step(s) == (s, Seq::<ActionView>::empty()),
        !s.flags.force_steamcmd ==> process_step(s).1.len() <= 1 && exists|k: int|
            #[trigger] differs_at_most_at(s.queue, process_step(s).0.queue, k),
{
    lemma_first_queued(s.queue);
    if !s.flags.force_steamcmd && !s.flags.processing {
        match first_queued(s.queue) {
            Some(k) => {
                assert(differs_at_most_at(s.queue, process_step(s).0.queue, k));
            },
            None => {
                assert(differs_at_most_at(s.queue, process_step(s).0.queue, 0));
            },
        }
    } else if !s.flags.force_steamcmd {
        assert(differs_at_most_at(s.queue, process_step(s).0.queue, 0));
    }
}

/// The SteamCMD retry leaves no item failed: with no download running,
/// every failed item is downloading in the one SteamCMD session.
pub proof fn law_retry_leaves_nothing_failed(s: FlowState)
    requires
        !s.flags.processing,
    ensures
        !has_failed(begin_retry_step(s).0.queue),
        forall|i: int| 0 <= i < s.queue.len() && #[trigger] s.queue[i].4.0 == 3 ==> begin_retry_step(s).0.queue[i].4.0
            == 1,
        begin_retry_step(s).0.queue.len() == s.queue.len(),
{
    let q1 = s.queue.map_values(|it: ItemView| requeued(it));
    let s1 = FlowState {
        queue: q1,
        flags: QueueFlags {
            force_steamcmd: true,
            steamcmd_exhausted: false,
            failed_overlay_open: false,
            failed_overlay_suppress: true,
            ..s.flags
        },
        status: None,
        gg: s.gg,
    };
    assert(begin_retry_step(s) == batch_step(s1));
    assert forall|i: int| 0 <= i < q1.len() implies #[trigger] q1[i].4.0 != 3 by {}
    let idx = queued_indices(q1, q1.len() as int);
    if idx.len() == 0 {
        lemma_no_queued(q1, q1.len() as int);
        assert forall|i: int| 0 <= i < s.queue.len() implies #[trigger] s.queue[i].4.0 != 3 by {
            assert(q1[i].4.0 != 0);
        }
    } else {
        let q2 = mark_queued(q1, q1.len() as int);
        assert forall|i: int| 0 <= i < q2.len() implies #[trigger] q2[i].4.0 != 3 by {}
    }
}

/// A retry that first had to install SteamCMD goes on, once it is
/// installed, exactly as if SteamCMD had been there.
pub proof fn law_retry_after_install(s: FlowState)
    requires
        s.status is None,
    ensures
        retry_step(s, true, false).1 == seq![ActionView::EnsureSteamCmd],
        ensure_done_step(retry_step(s, true, false).0, None) == begin_retry_step(
            FlowState { flags: QueueFlags { pending_steamcmd_retry: false, ..s.flags }, ..s },
        ),
{
}

/// While downloading waits for every name, nothing starts as long as a
/// name is still missing.
pub proof fn law_download_waits_for_names(
    s: FlowState,
    id: u64,
    m: Seq<char>,
    g: Seq<char>,
    app: u32,
    item: Option<GgItemResponse>,
    avail: bool,
)
    requires
        s.flags.download_when_resolved,
    ensures
        lookup_pending(queue_info_step(s, id, m, g, app, item, avail).0.queue) ==> queue_info_step(
            s,
            id,
            m,
            g,
            app,
            item,
            avail,
        ).1.len() == 0,
{
    let (q, gg) = match last_pending(s.queue, id) {
        Some(i) => (s.queue.update(i, resolved_item(s.queue[i], m, g, app, avail)), s.gg.update(i, item)),
        None => (s.queue, s.gg),
    };
    if !lookup_pending(q) {
        let s1 = FlowState { queue: q, gg, flags: QueueFlags { download_when_resolved: false, ..s.flags }, ..s };
        lemma_process_keeps_names(s1);
        assert(!lookup_pending(process_step(s1).0.queue));
    }
}

/// A row offers to take its item off the queue exactly when taking it off
/// is accepted.
pub proof fn law_remove_button_matches_removal(it: ItemView)
    ensures
        (spec_row_button(it) == RowButton::Remove) <==> removable(it),
{
}

} // verus!
