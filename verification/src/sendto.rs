//! The two entries of Windows' "Send to" menu: `GoldbergDrop.lnk` (the
//! setup tab) and `GoldbergDrop (GreenLuma).lnk` (the GreenLuma tab, with
//! `--greenluma`), and the saved state that says whether each is on and
//! which executable it was made for.

use vstd::prelude::*;

verus! {

broadcast use vstd::string::group_string_axioms;

/// Whether a "Send to" entry is on, and for this executable.
#[derive(Debug, Clone, Copy, PartialEq, Eq)]
pub enum SendToStatus {
    /// Never enabled, or disabled by the user.
    Disabled,
    /// Enabled, and the shortcut points at the running executable.
    Enabled,
    /// Enabled for an executable that has since moved.
    Stale,
}

/// The saved state of an entry.
#[derive(Debug, Clone)]
pub struct SendToState {
    pub enabled: bool,
    pub registered_exe: Option<String>,
}

/// The shortcut to write for an entry.
#[derive(Debug, Clone)]
pub struct ShortcutPlan {
    /// The shortcut's file name in the "Send to" folder.
    pub lnk_name: String,
    /// The executable it starts.
    pub target: String,
    /// The command-line arguments it passes.
    pub arguments: Option<String>,
}

/// Two paths name the same file: their canonical forms are equal when both
/// could be resolved, else the paths themselves are.
pub open spec fn spec_paths_match(
    a: Seq<char>,
    b: Seq<char>,
    canon_a: Option<Seq<char>>,
    canon_b: Option<Seq<char>>,
) -> bool {
    match (canon_a, canon_b) {
        (Some(x), Some(y)) => x == y,
        _ => a == b,
    }
}

/// An optional string as an optional sequence.
pub open spec fn opt_view(o: Option<&str>) -> Option<Seq<char>> {
    match o {
        Some(s) => Some(s@),
        None => None,
    }
}

/// Whether two paths name the same file (`canon_a`, `canon_b`: their
/// canonical forms, when they could be resolved).
pub fn paths_match(a: &str, b: &str, canon_a: Option<&str>, canon_b: Option<&str>) -> (r: bool)
    ensures
        r == spec_paths_match(a@, b@, opt_view(canon_a), opt_view(canon_b)),
{
    match (canon_a, canon_b) {
        (Some(x), Some(y)) => crate::text::eq_chars(
            &crate::text::chars_of(x),
            &crate::text::chars_of(y),
        ),
        _ => crate::text::eq_chars(&crate::text::chars_of(a), &crate::text::chars_of(b)),
    }
}

/// The status an entry's state gives for the running executable
/// (`current_exe`, `None` when unknown), with the canonical forms of both
/// paths when they could be resolved.
pub open spec fn spec_status(
    enabled: bool,
    registered: Option<Seq<char>>,
    current_exe: Option<Seq<char>>,
    canon_registered: Option<Seq<char>>,
    canon_current: Option<Seq<char>>,
) -> SendToStatus {
    if !enabled {
        SendToStatus::Disabled
    } else {
        match (registered, current_exe) {
            (Some(r), Some(c)) => if spec_paths_match(r, c, canon_registered, canon_current) {
                SendToStatus::Enabled
            } else {
                SendToStatus::Stale
            },
            _ => SendToStatus::Stale,
        }
    }
}

/// The registered executable as a value.
pub open spec fn registered_view(s: SendToState) -> Option<Seq<char>> {
    match s.registered_exe {
        Some(e) => Some(e@),
        None => None,
    }
}

fn status_for(
    state: &SendToState,
    current_exe: Option<&str>,
    canon_registered: Option<&str>,
    canon_current: Option<&str>,
) -> (r: SendToStatus)
    ensures
        r == spec_status(
            state.enabled,
            registered_view(*state),
            opt_view(current_exe),
            opt_view(canon_registered),
            opt_view(canon_current),
        ),
{
    if !state.enabled {
        return SendToStatus::Disabled;
    }
    match (&state.registered_exe, current_exe) {
        (Some(reg), Some(cur)) => {
            if paths_match(reg.as_str(), cur, canon_registered, canon_current) {
                SendToStatus::Enabled
            } else {
                SendToStatus::Stale
            }
        },
        _ => SendToStatus::Stale,
    }
}

/// Whether the Goldberg "Send to" entry is on, and for this executable.
pub fn status(
    state: &SendToState,
    current_exe: Option<&str>,
    canon_registered: Option<&str>,
    canon_current: Option<&str>,
) -> (r: SendToStatus)
    ensures
        r == spec_status(
            state.enabled,
            registered_view(*state),
            opt_view(current_exe),
            opt_view(canon_registered),
            opt_view(canon_current),
        ),
{
    status_for(state, current_exe, canon_registered, canon_current)
}

/// Whether the GreenLuma "Send to" entry is on, and for this executable.
pub fn status_greenluma(
    state: &SendToState,
    current_exe: Option<&str>,
    canon_registered: Option<&str>,
    canon_current: Option<&str>,
) -> (r: SendToStatus)
    ensures
        r == spec_status(
            state.enabled,
            registered_view(*state),
            opt_view(current_exe),
            opt_view(canon_registered),
            opt_view(canon_current),
        ),
{
    status_for(state, current_exe, canon_registered, canon_current)
}

/// The shortcut file of the Goldberg entry.
pub open spec fn goldberg_lnk() -> Seq<char> {
    "GoldbergDrop.lnk"@
}

/// The shortcut file of the GreenLuma entry.
pub open spec fn greenluma_lnk() -> Seq<char> {
    "GoldbergDrop (GreenLuma).lnk"@
}

fn enable_for(exe: &str, lnk_name: &str, arguments: Option<&str>) -> (r: (SendToState, ShortcutPlan))
    ensures
        r.0.enabled,
        registered_view(r.0) == Some(exe@),
        r.1.lnk_name@ == lnk_name@,
        r.1.target@ == exe@,
        (match r.1.arguments {
            Some(a) => Some(a@),
            None => None,
        }) == opt_view(arguments),
{
    let state = SendToState { enabled: true, registered_exe: Some(String::from_str(exe)) };
    let plan = ShortcutPlan {
        lnk_name: String::from_str(lnk_name),
        target: String::from_str(exe),
        arguments: match arguments {
            Some(a) => Some(String::from_str(a)),
            None => None,
        },
    };
    (state, plan)
}

/// Turns the Goldberg entry on for the executable `exe`: the new state and
/// the shortcut to write (no arguments).
pub fn enable(exe: &str) -> (r: (SendToState, ShortcutPlan))
    ensures
        r.0.enabled,
        registered_view(r.0) == Some(exe@),
        r.1.lnk_name@ == goldberg_lnk(),
        r.1.target@ == exe@,
        r.1.arguments is None,
{
    enable_for(exe, "GoldbergDrop.lnk", None)
}

/// Turns the GreenLuma entry on for the executable `exe`: the new state and
/// the shortcut to write (with `--greenluma`).
pub fn enable_greenluma(exe: &str) -> (r: (SendToState, ShortcutPlan))
    ensures
        r.0.enabled,
        registered_view(r.0) == Some(exe@),
        r.1.lnk_name@ == greenluma_lnk(),
        r.1.target@ == exe@,
        r.1.arguments matches Some(a) && a@ == "--greenluma"@,
{
    enable_for(exe, "GoldbergDrop (GreenLuma).lnk", Some("--greenluma"))
}

/// Turns the Goldberg entry off: the new state and the shortcut to delete.
pub fn disable() -> (r: (SendToState, String))
    ensures
        !r.0.enabled,
        r.0.registered_exe is None,
        r.1@ == goldberg_lnk(),
{
    (SendToState { enabled: false, registered_exe: None }, String::from_str("GoldbergDrop.lnk"))
}

/// Turns the GreenLuma entry off: the new state and the shortcut to delete.
pub fn disable_greenluma() -> (r: (SendToState, String))
    ensures
        !r.0.enabled,
        r.0.registered_exe is None,
        r.1@ == greenluma_lnk(),
{
    (
        SendToState { enabled: false, registered_exe: None },
        String::from_str("GoldbergDrop (GreenLuma).lnk"),
    )
}

/// An entry just enabled for the running executable shows as enabled (the
/// same path, or the same canonical path); a disabled one as disabled.
pub proof fn law_enable_then_status(
    exe: Seq<char>,
    canon: Option<Seq<char>>,
    other: Option<Seq<char>>,
    other_current: Option<Seq<char>>,
)
    ensures
        spec_status(true, Some(exe), Some(exe), canon, canon) == SendToStatus::Enabled,
        spec_status(false, None, other, other, other_current) == SendToStatus::Disabled,
{
}

/// The two entries are kept apart: turning the GreenLuma entry on or off
/// writes or deletes only `GoldbergDrop (GreenLuma).lnk` and gives only
/// the GreenLuma entry's state, never `GoldbergDrop.lnk`; so the Goldberg
/// entry's shortcut, its saved state and its status (which depends on that
/// state alone) stay as they were, and the other way round.
pub proof fn law_entries_are_separate()
    ensures
        greenluma_lnk() != goldberg_lnk(),
{
    reveal_strlit("GoldbergDrop (GreenLuma).lnk");
    reveal_strlit("GoldbergDrop.lnk");
    assert(greenluma_lnk()[12] != goldberg_lnk()[12]);
}

} // verus!
