//! The user's settings and the folders derived from them.

use vstd::prelude::*;
use crate::paths::{join, spec_join};

verus! {

broadcast use vstd::string::group_string_axioms;

/// The tabs of the settings page.
#[derive(Debug, Clone, Copy, PartialEq, Eq)]
pub enum SettingsTab {
    Download,
    SteamCmd,
    Paths,
    Setup,
    Tray,
}

impl Default for SettingsTab {
    fn default() -> (r: Self)
        ensures
            r == SettingsTab::Download,
    {
        SettingsTab::Download
    }
}

/// The user's settings.
#[derive(Debug, Clone)]
pub struct AppSettings {
    pub use_ggnetwork: bool,
    pub use_steamcmd: bool,
    pub ask_before_steamcmd: bool,
    /// `None` means `WorkshopDownloads` next to the executable.
    pub workshop_download_dir: Option<String>,
    pub fetch_dlc_default: bool,
    pub fetch_achievements_default: bool,
    /// Closing the window hides it to the tray instead of quitting.
    pub close_to_tray: bool,
    /// Start with Windows, minimized to the tray.
    pub autostart_tray: bool,
    /// `steam.exe` chosen by the user.
    pub steam_exe_override: Option<String>,
    /// Steam library folder chosen by the user.
    pub steam_library_override: Option<String>,
    /// Steam was last started with GreenLuma.
    pub steam_last_mode_greenluma: bool,
    /// Passwords that opened archives before.
    pub archive_passwords: Vec<String>,
}

impl Default for AppSettings {
    fn default() -> (r: Self)
        ensures
            r.use_ggnetwork,
            r.use_steamcmd,
            r.ask_before_steamcmd,
            r.workshop_download_dir is None,
            r.fetch_dlc_default,
            r.fetch_achievements_default,
            r.close_to_tray,
            !r.autostart_tray,
            r.steam_exe_override is None,
            r.steam_library_override is None,
            !r.steam_last_mode_greenluma,
            r.archive_passwords@.len() == 0,
    {
        AppSettings {
            use_ggnetwork: true,
            use_steamcmd: true,
            ask_before_steamcmd: true,
            workshop_download_dir: None,
            fetch_dlc_default: true,
            fetch_achievements_default: true,
            close_to_tray: true,
            autostart_tray: false,
            steam_exe_override: None,
            steam_library_override: None,
            steam_last_mode_greenluma: false,
            archive_passwords: Vec::new(),
        }
    }
}

/// The workshop download root: the chosen folder when set and not empty,
/// else `WorkshopDownloads` in the executable's folder.
pub open spec fn spec_workshop_root(chosen: Option<Seq<char>>, exe_dir: Seq<char>) -> Seq<char> {
    match chosen {
        Some(d) => if d.len() > 0 {
            d
        } else {
            spec_join(exe_dir, "WorkshopDownloads"@)
        },
        None => spec_join(exe_dir, "WorkshopDownloads"@),
    }
}

/// The chosen download folder as a value.
pub open spec fn chosen_dir(s: AppSettings) -> Option<Seq<char>> {
    match s.workshop_download_dir {
        Some(d) => Some(d@),
        None => None,
    }
}

impl AppSettings {
    /// The effective workshop download root (the parent of the per-game
    /// folders), for the executable in `exe_dir`.
    pub fn workshop_root(&self, exe_dir: &str) -> (r: String)
        ensures
            r@ == spec_workshop_root(chosen_dir(*self), exe_dir@),
    {
        match &self.workshop_download_dir {
            Some(d) => {
                if !d.as_str().is_empty() {
                    return d.clone();
                }
            },
            None => {},
        }
        join(exe_dir, "WorkshopDownloads")
    }

    /// The workshop root as shown to the user; `(unavailable)` when it
    /// depends on the executable's folder and that is unknown.
    pub fn display_workshop_root(&self, exe_dir: Option<&str>) -> (r: String)
        ensures
            exe_dir matches Some(e) ==> r@ == spec_workshop_root(chosen_dir(*self), e@),
            exe_dir is None ==> r@ == (match chosen_dir(*self) {
                Some(d) => if d.len() > 0 {
                    d
                } else {
                    "(unavailable)"@
                },
                None => "(unavailable)"@,
            }),
    {
        match exe_dir {
            Some(e) => self.workshop_root(e),
            None => {
                match &self.workshop_download_dir {
                    Some(d) => {
                        if !d.as_str().is_empty() {
                            return d.clone();
                        }
                    },
                    None => {},
                }
                String::from_str("(unavailable)")
            },
        }
    }

    /// The folder downloads of `game_name` go to, for the executable in
    /// `exe_dir`.
    pub fn game_download_dir(&self, exe_dir: &str, game_name: &str) -> (r: String)
        requires
            crate::workshop::folder_name_cuttable(game_name@),
        ensures
            r@ == spec_join(
                spec_workshop_root(chosen_dir(*self), exe_dir@),
                crate::workshop::spec_sanitize_folder_name(game_name@),
            ),
    {
        let root = self.workshop_root(exe_dir);
        crate::workshop::game_download_dir(root.as_str(), game_name)
    }

    /// SteamCMD's folder under the app data folder.
    pub fn steamcmd_dir(app_data_dir: &str) -> (r: String)
        ensures
            r@ == spec_join(app_data_dir@, "steamcmd"@),
    {
        join(app_data_dir, "steamcmd")
    }

    /// `steamcmd.exe` under the app data folder.
    pub fn steamcmd_exe(app_data_dir: &str) -> (r: String)
        ensures
            r@ == spec_join(spec_join(app_data_dir@, "steamcmd"@), "steamcmd.exe"@),
    {
        let d = Self::steamcmd_dir(app_data_dir);
        join(d.as_str(), "steamcmd.exe")
    }
}

} // verus!
