//! Autostart through the Windows `Run` registry key: the `GoldbergDrop`
//! value that starts the app minimized to the tray, and the `Steam` value
//! that is set aside while GreenLuma auto-inject replaces it.

use vstd::prelude::*;
use crate::text::{chars_of, occurs_at_exec, starts_with, string_of, string_of_range};

verus! {

broadcast use vstd::string::group_string_axioms;

/// The extended-length prefix `\\?\`.
pub open spec fn unc_prefix() -> Seq<char> {
    seq!['\\', '\\', '?', '\\']
}

/// The path without a leading `\\?\` (the `Run` key cannot launch such
/// paths).
pub open spec fn spec_strip_unc_prefix(path: Seq<char>) -> Seq<char> {
    if starts_with(path, unc_prefix()) {
        path.skip(4)
    } else {
        path
    }
}

/// Removes a leading `\\?\` from a path.
pub fn strip_unc_prefix(path: &str) -> (r: String)
    ensures
        r@ == spec_strip_unc_prefix(path@),
{
    let v = chars_of(path);
    let mut p: Vec<char> = Vec::new();
    p.push('\\');
    p.push('\\');
    p.push('?');
    p.push('\\');
    assert(p@ =~= unc_prefix());
    if occurs_at_exec(&v, &p, 0) {
        let r = string_of_range(&v, 4, v.len());
        assert(v@.subrange(4, v@.len() as int) =~= v@.skip(4));
        r
    } else {
        let r = string_of(&v);
        r
    }
}

/// The command the `Run` value holds: the quoted path, then ` --tray`.
pub open spec fn spec_format_run_command(exe: Seq<char>) -> Seq<char> {
    seq!['"'] + exe + "\" --tray"@
}

/// Formats the `Run` value for an executable path.
pub fn format_run_command(exe: &str) -> (r: String)
    ensures
        r@ == spec_format_run_command(exe@),
{
    let mut v: Vec<char> = Vec::new();
    v.push('"');
    let e = chars_of(exe);
    crate::text::extend_chars(&mut v, &e);
    let tail = chars_of("\" --tray");
    crate::text::extend_chars(&mut v, &tail);
    assert(v@ =~= spec_format_run_command(exe@));
    string_of(&v)
}

/// The `Run` value that starts this executable in the tray.
pub open spec fn autostart_command(exe: Seq<char>) -> Seq<char> {
    spec_format_run_command(spec_strip_unc_prefix(exe))
}

/// The two values of the `Run` key this app reads and writes.
pub struct RunKey {
    /// The `GoldbergDrop` value, if set.
    pub goldberg: Option<String>,
    /// The `Steam` value, if set.
    pub steam: Option<String>,
}

/// The values as strings of characters.
pub struct RunKeyView {
    pub goldberg: Option<Seq<char>>,
    pub steam: Option<Seq<char>>,
}

pub open spec fn opt_view(o: Option<String>) -> Option<Seq<char>> {
    match o {
        Some(s) => Some(s@),
        None => None,
    }
}

impl View for RunKey {
    type V = RunKeyView;

    open spec fn view(&self) -> RunKeyView {
        RunKeyView { goldberg: opt_view(self.goldberg), steam: opt_view(self.steam) }
    }
}

impl RunKey {
    /// Autostart is on: the `GoldbergDrop` value exists.
    pub fn is_enabled(&self) -> (r: bool)
        ensures
            r == self@.goldberg is Some,
    {
        self.goldberg.is_some()
    }

    /// Turns autostart on for the executable at `exe`.
    pub fn enable(&mut self, exe: &str)
        ensures
            final(self)@ == enabled(old(self)@, exe@),
    {
        let stripped = strip_unc_prefix(exe);
        self.goldberg = Some(format_run_command(stripped.as_str()));
    }

    /// Turns autostart off.
    pub fn disable(&mut self)
        ensures
            final(self)@.goldberg is None,
            final(self)@.steam == old(self)@.steam,
    {
        self.goldberg = None;
    }

    /// Rewrites an existing `GoldbergDrop` value that no longer points at
    /// `exe` (moved executable, `\\?\` path); true if it was rewritten.
    pub fn ensure_gbd_run_valid(&mut self, exe: &str) -> (r: bool)
        ensures
            (final(self)@, r) == refreshed(old(self)@, exe@),
    {
        match &self.goldberg {
            None => false,
            Some(current) => {
                let stripped = strip_unc_prefix(exe);
                let expected = format_run_command(stripped.as_str());
                if *current == expected {
                    false
                } else {
                    self.goldberg = Some(expected);
                    true
                }
            },
        }
    }

    /// Steam's own `Run` value, if present.
    pub fn read_steam_run(&self) -> (r: Option<String>)
        ensures
            opt_view(r) == self@.steam,
    {
        self.steam.clone()
    }

    /// Removes Steam's `Run` value.
    pub fn delete_steam_run(&mut self)
        ensures
            final(self)@.steam is None,
            final(self)@.goldberg == old(self)@.goldberg,
    {
        self.steam = None;
    }

    /// Restores Steam's `Run` value from a saved copy.
    pub fn write_steam_run(&mut self, value: &str)
        ensures
            final(self)@.steam == Some(value@),
            final(self)@.goldberg == old(self)@.goldberg,
    {
        self.steam = Some(String::from_str(value));
    }
}

/// Where the autostart entry lives, as shown to the user.
pub fn shortcut_hint() -> (r: String)
    ensures
        r@ == "%APPDATA%\\…\\Run\\GoldbergDrop"@,
{
    String::from_str("%APPDATA%\\…\\Run\\GoldbergDrop")
}

/// What `ensure_gbd_run_valid` does to the key for the executable at `exe`:
/// the new state and whether the entry was rewritten.
pub open spec fn refreshed(k: RunKeyView, exe: Seq<char>) -> (RunKeyView, bool) {
    match k.goldberg {
        None => (k, false),
        Some(cur) => {
            let expected = autostart_command(exe);
            if cur == expected {
                (k, false)
            } else {
                (RunKeyView { goldberg: Some(expected), steam: k.steam }, true)
            }
        },
    }
}

/// What `enable` does to the key.
pub open spec fn enabled(k: RunKeyView, exe: Seq<char>) -> RunKeyView {
    RunKeyView { goldberg: Some(autostart_command(exe)), steam: k.steam }
}

/// An entry that `enable` just wrote for an executable is never rewritten
/// by `ensure_gbd_run_valid` for the same executable, and refreshing twice
/// rewrites at most once.
pub proof fn law_enabled_entry_needs_no_refresh(k: RunKeyView, exe: Seq<char>)
    ensures
        refreshed(enabled(k, exe), exe) == (enabled(k, exe), false),
        !refreshed(refreshed(k, exe).0, exe).1,
        refreshed(refreshed(k, exe).0, exe).0 == refreshed(k, exe).0,
{
}

/// Autostart entries and Steam's entry are independent: each operation on
/// one leaves the other as it was, and a restored Steam value reads back.
pub proof fn law_steam_value_round_trip(k: RunKeyView, v: Seq<char>, exe: Seq<char>)
    ensures
        enabled(RunKeyView { goldberg: k.goldberg, steam: Some(v) }, exe).steam == Some(v),
        refreshed(RunKeyView { goldberg: k.goldberg, steam: Some(v) }, exe).0.steam == Some(v),
{
}

} // verus!
