//! The tray icon's menu: what it lists, what a click on an entry asks for,
//! and how native menus are switched to the dark theme.

use vstd::prelude::*;
use crate::games::TrackedGame;
use crate::text::{chars_of, decimal, parse_uint, parse_u32_range, push_decimal, string_of};

verus! {

broadcast use vstd::string::group_string_axioms;

/// What the tray asks the main window to do.
pub enum TrayCmd {
    ShowWindow,
    Quit,
    LaunchGame(u32),
}

/// What a click on a menu entry asks for.
#[derive(Debug, Clone, Copy, PartialEq, Eq)]
pub enum MenuAction {
    ShowWindow,
    Quit,
    StartSteamPlain,
    StartSteamGreenLuma,
    LaunchGame(u32),
    /// Not an entry that does anything.
    Nothing,
}

/// One entry of the tray menu.
pub enum MenuEntry {
    Separator,
    /// An entry: id, label, whether it can be clicked, and its icon.
    Item(String, String, bool, Option<String>),
}

/// An entry as values: `None` for a separator.
pub type EntryView = Option<(Seq<char>, Seq<char>, bool, Option<Seq<char>>)>;

/// The entries as values.
pub open spec fn entries_view(v: Seq<MenuEntry>) -> Seq<EntryView> {
    v.map_values(
        |e: MenuEntry|
            match e {
                MenuEntry::Separator => None,
                MenuEntry::Item(id, label, on, icon) => Some(
                    (
                        id@,
                        label@,
                        on,
                        match icon {
                            Some(p) => Some(p@),
                            None => None,
                        },
                    ),
                ),
            },
    )
}

/// The menu id of a game's entry: `game_<app id>`.
pub open spec fn game_id(app_id: u32) -> Seq<char> {
    "game_"@ + decimal(app_id as nat)
}

/// The game entries: one per game, with its name and icon.
pub open spec fn game_entries(games: Seq<TrackedGame>) -> Seq<EntryView> {
    games.map_values(
        |g: TrackedGame|
            Some(
                (
                    game_id(g.app_id),
                    g.name@,
                    true,
                    match g.icon_path {
                        Some(p) => Some(p@),
                        None => None,
                    },
                ),
            ),
    )
}

/// The menu: Open; with GreenLuma installed, a separator and the two ways
/// to start Steam; a separator; the games (or a disabled note when there
/// are none); a separator and Quit.
pub open spec fn spec_menu_entries(games: Seq<TrackedGame>, greenluma_installed: bool) -> Seq<
    EntryView,
> {
    let open: EntryView = Some(("open"@, "Open GoldbergDrop"@, true, None));
    let steam: Seq<EntryView> = if greenluma_installed {
        seq![
            None,
            Some(("steam_greenluma"@, "Start Steam with GreenLuma"@, true, None)),
            Some(("steam_plain"@, "Start Steam without GreenLuma"@, true, None)),
        ]
    } else {
        seq![]
    };
    let list: Seq<EntryView> = if games.len() == 0 {
        seq![Some(("empty"@, "No games tracked yet"@, false, None))]
    } else {
        game_entries(games)
    };
    seq![open] + steam + seq![None] + list + seq![None, Some(("quit"@, "Quit"@, true, None))]
}

fn item(id: &str, label: &str, enabled: bool) -> (r: MenuEntry)
    ensures
        entries_view(seq![r])[0] == Some((id@, label@, enabled, None::<Seq<char>>)),
{
    MenuEntry::Item(String::from_str(id), String::from_str(label), enabled, None)
}

/// The menu id of a game's entry.
pub fn game_menu_id(app_id: u32) -> (r: String)
    ensures
        r@ == game_id(app_id),
{
    let mut v = chars_of("game_");
    push_decimal(&mut v, app_id as u64);
    string_of(&v)
}

/// Lays out the tray menu for the tracked games.
pub fn menu_entries(games: &Vec<TrackedGame>, greenluma_installed: bool) -> (r: Vec<MenuEntry>)
    ensures
        entries_view(r@) == spec_menu_entries(games@, greenluma_installed),
{
    let mut out: Vec<MenuEntry> = Vec::new();
    let ghost mut acc: Seq<EntryView> = seq![];
    out.push(item("open", "Open GoldbergDrop", true));
    proof {
        acc = seq![Some(("open"@, "Open GoldbergDrop"@, true, None))];
        assert(entries_view(out@) =~= acc);
    }
    if greenluma_installed {
        out.push(MenuEntry::Separator);
        out.push(item("steam_greenluma", "Start Steam with GreenLuma", true));
        out.push(item("steam_plain", "Start Steam without GreenLuma", true));
        proof {
            acc = acc + seq![
                None,
                Some(("steam_greenluma"@, "Start Steam with GreenLuma"@, true, None)),
                Some(("steam_plain"@, "Start Steam without GreenLuma"@, true, None)),
            ];
            assert(entries_view(out@) =~= acc);
        }
    }
    out.push(MenuEntry::Separator);
    proof {
        acc = acc.push(None);
        assert(entries_view(out@) =~= acc);
    }
    if games.len() == 0 {
        out.push(item("empty", "No games tracked yet", false));
        proof {
            acc = acc.push(Some(("empty"@, "No games tracked yet"@, false, None)));
            assert(entries_view(out@) =~= acc);
        }
    } else {
        let mut i: usize = 0;
        let ghost base = acc;
        while i < games.len()
            invariant
                i <= games.len(),
                entries_view(out@) == base + game_entries(games@).take(i as int),
            decreases games.len() - i,
        {
            let g = &games[i];
            let icon = match &g.icon_path {
                Some(p) => Some(p.clone()),
                None => None,
            };
            let e = MenuEntry::Item(game_menu_id(g.app_id), g.name.clone(), true, icon);
            let ghost before = out@;
            out.push(e);
            proof {
                assert(entries_view(out@) =~= entries_view(before).push(game_entries(games@)[i as int]));
                assert(game_entries(games@).take(i + 1) =~= game_entries(games@).take(i as int).push(
                    game_entries(games@)[i as int],
                ));
            }
            i = i + 1;
        }
        proof {
            assert(game_entries(games@).take(games.len() as int) =~= game_entries(games@));
            acc = base + game_entries(games@);
        }
    }
    out.push(MenuEntry::Separator);
    out.push(item("quit", "Quit", true));
    proof {
        acc = acc + seq![None, Some(("quit"@, "Quit"@, true, None))];
        assert(entries_view(out@) =~= acc);
        assert(acc =~= spec_menu_entries(games@, greenluma_installed));
    }
    out
}

/// What a click on the entry with menu id `id` asks for.
pub open spec fn spec_menu_action(id: Seq<char>) -> MenuAction {
    if id == "open"@ {
        MenuAction::ShowWindow
    } else if id == "quit"@ {
        MenuAction::Quit
    } else if id == "steam_plain"@ {
        MenuAction::StartSteamPlain
    } else if id == "steam_greenluma"@ {
        MenuAction::StartSteamGreenLuma
    } else if crate::text::starts_with(id, "game_"@) {
        match parse_uint(id.skip(5), u32::MAX as nat) {
            Some(n) => MenuAction::LaunchGame(n as u32),
            None => MenuAction::Nothing,
        }
    } else {
        MenuAction::Nothing
    }
}

/// What a click on a menu entry asks for.
pub fn menu_action(id: &str) -> (r: MenuAction)
    ensures
        r == spec_menu_action(id@),
{
    let v = chars_of(id);
    if crate::text::eq_chars(&v, &chars_of("open")) {
        return MenuAction::ShowWindow;
    }
    if crate::text::eq_chars(&v, &chars_of("quit")) {
        return MenuAction::Quit;
    }
    if crate::text::eq_chars(&v, &chars_of("steam_plain")) {
        return MenuAction::StartSteamPlain;
    }
    if crate::text::eq_chars(&v, &chars_of("steam_greenluma")) {
        return MenuAction::StartSteamGreenLuma;
    }
    if crate::text::starts_with_exec(&v, &chars_of("game_")) {
        proof {
            reveal_strlit("game_");
        }
        assert(v@.subrange(5, v@.len() as int) =~= v@.skip(5));
        return match parse_u32_range(&v, 5, v.len()) {
            Some(n) => MenuAction::LaunchGame(n),
            None => MenuAction::Nothing,
        };
    }
    MenuAction::Nothing
}

/// Clicking a game's entry launches that game.
pub proof fn law_game_entry_launches_game(app_id: u32)
    ensures
        spec_menu_action(game_id(app_id)) == MenuAction::LaunchGame(app_id),
{
    reveal_strlit("game_");
    reveal_strlit("open");
    reveal_strlit("quit");
    reveal_strlit("steam_plain");
    reveal_strlit("steam_greenluma");
    let id = game_id(app_id);
    assert(id[0] == 'g');
    assert(id[4] == '_');
    assert(id != "open"@);
    assert(id != "quit"@);
    assert(id != "steam_plain"@);
    assert(id != "steam_greenluma"@);
    assert(id.subrange(0, 5) =~= "game_"@);
    assert(id.skip(5) =~= decimal(app_id as nat));
    crate::text::lemma_parse_decimal(app_id as nat, u32::MAX as nat);
}

// ---------------------------------------------------------------------------
// The window and the tray
// ---------------------------------------------------------------------------

/// Whether the window is hidden with the program left in the tray, and
/// whether the short notice shown before the window hides is up.
#[derive(Clone, Copy, PartialEq, Eq, Structural, Debug)]
pub struct WindowState {
    pub dormant: bool,
    pub notice: bool,
}

/// What to do with the window.
#[derive(Clone, Copy, PartialEq, Eq, Structural, Debug)]
pub enum WindowCmd {
    /// Leave it as it is.
    Keep,
    /// Hide it; the program stays in the tray.
    Hide,
    /// Show it, restored and focused.
    Show,
    /// Close the program.
    Close,
}

/// The close button: with `close_to_tray` the notice comes up and the
/// window stays until it has been read; otherwise the program closes.
pub open spec fn close_step(w: WindowState, close_to_tray: bool) -> (WindowState, WindowCmd) {
    if close_to_tray {
        (WindowState { notice: true, ..w }, WindowCmd::Keep)
    } else {
        (w, WindowCmd::Close)
    }
}

/// The notice's time ran out: the window hides and the program stays in
/// the tray.
pub open spec fn notice_step(w: WindowState) -> (WindowState, WindowCmd) {
    if w.notice {
        (WindowState { dormant: true, notice: false }, WindowCmd::Hide)
    } else {
        (w, WindowCmd::Keep)
    }
}

/// A command from the tray: `Show` brings the window back (dropping a
/// pending notice), `Quit` closes the program, launching a game leaves the
/// window as it is.
pub open spec fn tray_step(w: WindowState, cmd: TrayCmd) -> (WindowState, WindowCmd) {
    match cmd {
        TrayCmd::ShowWindow => (WindowState { dormant: false, notice: false }, WindowCmd::Show),
        TrayCmd::Quit => (w, WindowCmd::Close),
        TrayCmd::LaunchGame(_) => (w, WindowCmd::Keep),
    }
}

impl WindowState {
    /// The window at start: started for the tray (`--tray`) with no file to
    /// open, only the tray icon shows.
    pub fn at_start(start_in_tray: bool, has_path: bool) -> (r: Self)
        ensures
            r.dormant == (start_in_tray && !has_path),
            !r.notice,
    {
        WindowState { dormant: start_in_tray && !has_path, notice: false }
    }

    /// The window's close button (see `close_step`).
    pub fn on_close_clicked(&mut self, close_to_tray: bool) -> (r: WindowCmd)
        ensures
            (*final(self), r) == close_step(*old(self), close_to_tray),
    {
        if close_to_tray {
            self.notice = true;
            WindowCmd::Keep
        } else {
            WindowCmd::Close
        }
    }

    /// The notice's time ran out (see `notice_step`).
    pub fn on_notice_elapsed(&mut self) -> (r: WindowCmd)
        ensures
            (*final(self), r) == notice_step(*old(self)),
    {
        if self.notice {
            self.notice = false;
            self.dormant = true;
            WindowCmd::Hide
        } else {
            WindowCmd::Keep
        }
    }

    /// A command from the tray (see `tray_step`).
    pub fn on_tray_cmd(&mut self, cmd: &TrayCmd) -> (r: WindowCmd)
        ensures
            (*final(self), r) == tray_step(*old(self), *cmd),
    {
        match cmd {
            TrayCmd::ShowWindow => {
                self.notice = false;
                self.dormant = false;
                WindowCmd::Show
            },
            TrayCmd::Quit => WindowCmd::Close,
            TrayCmd::LaunchGame(_) => WindowCmd::Keep,
        }
    }
}

/// Closing the window with `close_to_tray` on does not end the program:
/// once the notice has been read the window is hidden with the program in
/// the tray, and the tray's `Show` brings the window back.
pub proof fn law_close_to_tray_keeps_running(w: WindowState)
    ensures
        ({
            let (w1, c1) = close_step(w, true);
            let (w2, c2) = notice_step(w1);
            let (w3, c3) = tray_step(w2, TrayCmd::ShowWindow);
            &&& c1 == WindowCmd::Keep
            &&& c2 == WindowCmd::Hide && w2.dormant
            &&& c3 == WindowCmd::Show && !w3.dormant && !w3.notice
        }),
{
}

// ---------------------------------------------------------------------------
// Dark native menus
// ---------------------------------------------------------------------------

/// The app mode `SetPreferredAppMode` is given.
#[derive(Debug, Clone, Copy, PartialEq, Eq)]
pub enum PreferredAppMode {
    Default,
    AllowDark,
}

/// The uxtheme call that switches native menus to the dark theme.
#[derive(Debug, Clone, Copy, PartialEq, Eq)]
pub enum DarkMenuCall {
    /// Windows before 10 1809: nothing to call.
    Unsupported,
    /// Windows 10 1809 (`AllowDarkModeForApp`).
    AllowDarkModeForApp(bool),
    /// Windows 10 1903 and later (`SetPreferredAppMode`).
    SetPreferredAppMode(PreferredAppMode),
}

/// Apps should be dark: the registry's `AppsUseLightTheme` when it is set,
/// else what uxtheme's `ShouldAppsUseDarkMode` says (false when that is
/// unavailable).
pub fn should_use_dark_mode(apps_use_light_theme: Option<bool>, uxtheme_says_dark: Option<bool>) -> (r:
    bool)
    ensures
        r == match apps_use_light_theme {
            Some(light) => !light,
            None => uxtheme_says_dark == Some(true),
        },
{
    match apps_use_light_theme {
        Some(light) => !light,
        None => match uxtheme_says_dark {
            Some(d) => d,
            None => false,
        },
    }
}

/// The call that makes menus follow `is_dark` on the Windows build
/// `build`.
pub open spec fn spec_dark_call(build: u32, is_dark: bool) -> DarkMenuCall {
    if build < 17763 {
        DarkMenuCall::Unsupported
    } else if build < 18362 {
        DarkMenuCall::AllowDarkModeForApp(is_dark)
    } else {
        DarkMenuCall::SetPreferredAppMode(
            if is_dark {
                PreferredAppMode::AllowDark
            } else {
                PreferredAppMode::Default
            },
        )
    }
}

/// The call that makes menus follow `is_dark` on the Windows build `build`.
pub fn enable(build: u32, is_dark: bool) -> (r: DarkMenuCall)
    ensures
        r == spec_dark_call(build, is_dark),
{
    if build < 17763 {
        DarkMenuCall::Unsupported
    } else if build < 18362 {
        DarkMenuCall::AllowDarkModeForApp(is_dark)
    } else {
        DarkMenuCall::SetPreferredAppMode(
            if is_dark {
                PreferredAppMode::AllowDark
            } else {
                PreferredAppMode::Default
            },
        )
    }
}

/// Dark native menus: the build number is `RtlGetNtVersionNumbers`'s with
/// its top four flag bits cleared.
pub fn enable_windows_dark_menus(
    raw_build: u32,
    apps_use_light_theme: Option<bool>,
    uxtheme_says_dark: Option<bool>,
) -> (r: DarkMenuCall)
    ensures
        r == spec_dark_call(
            raw_build & 0x0fff_ffffu32,
            match apps_use_light_theme {
                Some(light) => !light,
                None => uxtheme_says_dark == Some(true),
            },
        ),
{
    let build = raw_build & 0x0fff_ffffu32;
    enable(build, should_use_dark_mode(apps_use_light_theme, uxtheme_says_dark))
}

} // verus!
