//! Setting a game up for the Goldberg emulator: where its
//! `steam_api(64).dll` files are, what is written beside them, and how the
//! original DLL is kept.

use vstd::prelude::*;
use crate::models::{Achievement, DlcApp};
use crate::paths::{file_name, file_name_of, parent, parent_of};
use crate::text::{chars_of, decimal, eq_ignore_ascii_case, eq_ignore_ascii_case_str, push_decimal, string_of};

verus! {

broadcast use vstd::string::group_string_axioms;

/// What a setup writes: the app id, the DLCs and the achievements.
pub struct SetupOptions {
    pub app_id: u32,
    pub dlc_list: Vec<DlcApp>,
    pub achievements: Vec<Achievement>,
}

/// One step of a setup.
pub enum SetupStep {
    /// Write `steam_appid.txt` and `steam_settings` in the folder.
    WriteConfig(String),
    /// Swap the DLL with this base name in the folder for Goldberg's build.
    SwapDll(String, String),
}

/// A file that is a Steam API DLL (`steam_api.dll` or `steam_api64.dll`, up
/// to ASCII case).
pub open spec fn is_steam_api_dll(path: Seq<char>) -> bool {
    eq_ignore_ascii_case(file_name(path), "steam_api.dll"@) || eq_ignore_ascii_case(
        file_name(path),
        "steam_api64.dll"@,
    )
}

/// The folders of the first `k` files that are Steam API DLLs, each once,
/// in the order they were found.
pub open spec fn dll_dirs_fold(files: Seq<Seq<char>>, k: int) -> Seq<Seq<char>>
    decreases k,
{
    if k <= 0 {
        seq![]
    } else {
        let acc = dll_dirs_fold(files, k - 1);
        let f = files[k - 1];
        if is_steam_api_dll(f) && parent(f) is Some && !acc.contains(parent(f).unwrap()) {
            acc.push(parent(f).unwrap())
        } else {
            acc
        }
    }
}

/// The folders holding a Steam API DLL, from the files found under the game
/// folder (in the order they were walked).
pub fn find_dll_directories(files: &Vec<String>) -> (r: Vec<String>)
    ensures
        crate::steam::strings_view(r@) == dll_dirs_fold(
            crate::steam::strings_view(files@),
            files@.len() as int,
        ),
{
    let ghost fv = crate::steam::strings_view(files@);
    let mut dirs: Vec<String> = Vec::new();
    let mut k: usize = 0;
    while k < files.len()
        invariant
            k <= files.len(),
            fv == crate::steam::strings_view(files@),
            crate::steam::strings_view(dirs@) == dll_dirs_fold(fv, k as int),
        decreases files.len() - k,
    {
        let f = files[k].as_str();
        assert(fv[k as int] == f@);
        let name = file_name_of(f);
        if eq_ignore_ascii_case_str(name.as_str(), "steam_api.dll") || eq_ignore_ascii_case_str(
            name.as_str(),
            "steam_api64.dll",
        ) {
            match parent_of(f) {
                Some(p) => {
                    if !crate::applist::contains_string(&dirs, p.as_str()) {
                        let ghost before = dirs@;
                        dirs.push(p);
                        assert(crate::steam::strings_view(dirs@) =~= crate::steam::strings_view(
                            before,
                        ).push(parent(fv[k as int]).unwrap()));
                    }
                },
                None => {},
            }
        }
        k = k + 1;
    }
    dirs
}

/// Steps as values: `(folder, None)` writes the config, `(folder, Some(name))`
/// swaps a DLL.
pub open spec fn steps_view(v: Seq<SetupStep>) -> Seq<(Seq<char>, Option<Seq<char>>)> {
    v.map_values(
        |s: SetupStep|
            match s {
                SetupStep::WriteConfig(d) => (d@, None),
                SetupStep::SwapDll(d, n) => (d@, Some(n@)),
            },
    )
}

/// The steps for one DLL folder (`has32`, `has64`: which DLLs it holds):
/// its config unless it is the game folder, then each DLL it holds swapped.
pub open spec fn dir_steps(game_dir: Seq<char>, dir: Seq<char>, has32: bool, has64: bool) -> Seq<
    (Seq<char>, Option<Seq<char>>),
> {
    (if dir != game_dir {
        seq![(dir, None)]
    } else {
        seq![]
    }) + (if has32 {
        seq![(dir, Some("steam_api"@))]
    } else {
        seq![]
    }) + (if has64 {
        seq![(dir, Some("steam_api64"@))]
    } else {
        seq![]
    })
}

/// The steps for the first `k` DLL folders.
pub open spec fn setup_fold(game_dir: Seq<char>, dirs: Seq<(Seq<char>, bool, bool)>, k: int) -> Seq<
    (Seq<char>, Option<Seq<char>>),
>
    decreases k,
{
    if k <= 0 {
        seq![(game_dir, None)]
    } else {
        setup_fold(game_dir, dirs, k - 1) + dir_steps(
            game_dir,
            dirs[k - 1].0,
            dirs[k - 1].1,
            dirs[k - 1].2,
        )
    }
}

/// The DLL folders as values.
pub open spec fn dirs_view(v: Seq<(String, bool, bool)>) -> Seq<(Seq<char>, bool, bool)> {
    v.map_values(|d: (String, bool, bool)| (d.0@, d.1, d.2))
}

/// The folder holds a Steam API DLL.
pub open spec fn has_dll(d: (String, bool, bool)) -> bool {
    d.1 || d.2
}

/// A plan only grows as folders are added.
proof fn lemma_fold_grows(game_dir: Seq<char>, dirs: Seq<(Seq<char>, bool, bool)>, k: int, m: int, x: (
    Seq<char>,
    Option<Seq<char>>,
))
    requires
        0 <= k <= m,
        setup_fold(game_dir, dirs, k).contains(x),
    ensures
        setup_fold(game_dir, dirs, m).contains(x),
    decreases m - k,
{
    if k < m {
        lemma_fold_grows(game_dir, dirs, k, m - 1, x);
        let a = setup_fold(game_dir, dirs, m - 1);
        let j = choose|j: int| 0 <= j < a.len() && a[j] == x;
        assert((a + dir_steps(game_dir, dirs[m - 1].0, dirs[m - 1].1, dirs[m - 1].2))[j] == x);
    }
}

/// The setup writes the config in the game folder and swaps every Steam
/// API DLL of every folder that holds one: `steam_api` where the folder
/// holds `steam_api.dll`, `steam_api64` where it holds `steam_api64.dll`;
/// and every other folder holding a DLL gets its config too.
pub proof fn law_every_dll_is_swapped(game_dir: Seq<char>, dirs: Seq<(Seq<char>, bool, bool)>)
    ensures
        setup_fold(game_dir, dirs, dirs.len() as int).contains((game_dir, None)),
        forall|k: int|
            #![trigger dirs[k]]
            0 <= k < dirs.len() ==> {
                &&& dirs[k].1 ==> setup_fold(game_dir, dirs, dirs.len() as int).contains(
                    (dirs[k].0, Some("steam_api"@)),
                )
                &&& dirs[k].2 ==> setup_fold(game_dir, dirs, dirs.len() as int).contains(
                    (dirs[k].0, Some("steam_api64"@)),
                )
                &&& setup_fold(game_dir, dirs, dirs.len() as int).contains((dirs[k].0, None))
            },
{
    let n = dirs.len() as int;
    assert(setup_fold(game_dir, dirs, 0)[0] == (game_dir, None::<Seq<char>>));
    lemma_fold_grows(game_dir, dirs, 0, n, (game_dir, None));
    assert forall|k: int| #![trigger dirs[k]] 0 <= k < dirs.len() implies {
        &&& dirs[k].1 ==> setup_fold(game_dir, dirs, n).contains((dirs[k].0, Some("steam_api"@)))
        &&& dirs[k].2 ==> setup_fold(game_dir, dirs, n).contains((dirs[k].0, Some("steam_api64"@)))
        &&& setup_fold(game_dir, dirs, n).contains((dirs[k].0, None))
    } by {
        let (d, h32, h64) = dirs[k];
        let a = setup_fold(game_dir, dirs, k);
        let c = if d != game_dir {
            seq![(d, None::<Seq<char>>)]
        } else {
            seq![]
        };
        let s32 = if h32 {
            seq![(d, Some("steam_api"@))]
        } else {
            seq![]
        };
        let s64 = if h64 {
            seq![(d, Some("steam_api64"@))]
        } else {
            seq![]
        };
        let b = a + (c + s32 + s64);
        assert(dir_steps(game_dir, d, h32, h64) == c + s32 + s64);
        assert(setup_fold(game_dir, dirs, k + 1) == b);
        if h32 {
            assert(b[(a.len() + c.len()) as int] == (d, Some("steam_api"@)));
            lemma_fold_grows(game_dir, dirs, k + 1, n, (d, Some("steam_api"@)));
        }
        if h64 {
            assert(b[(a.len() + c.len() + s32.len()) as int] == (d, Some("steam_api64"@)));
            lemma_fold_grows(game_dir, dirs, k + 1, n, (d, Some("steam_api64"@)));
        }
        if d != game_dir {
            assert(b[a.len() as int] == (d, None::<Seq<char>>));
            lemma_fold_grows(game_dir, dirs, k + 1, n, (d, None));
        } else {
            lemma_fold_grows(game_dir, dirs, 0, n, (game_dir, None));
        }
    }
}

/// A step the setup may take for these folders: the game folder's
/// config, a folder's config, or a swap of a DLL the folder holds.
pub open spec fn allowed_step(
    game_dir: Seq<char>,
    dirs: Seq<(Seq<char>, bool, bool)>,
    x: (Seq<char>, Option<Seq<char>>),
) -> bool {
    x == (game_dir, None::<Seq<char>>) || exists|k: int|
        0 <= k < dirs.len() && {
            ||| x == (dirs[k].0, None::<Seq<char>>)
            ||| dirs[k].1 && x == (dirs[k].0, Some("steam_api"@))
            ||| dirs[k].2 && x == (dirs[k].0, Some("steam_api64"@))
        }
}

/// The setup starts with the game folder's config and takes no step but
/// configs of the game folder and the DLL folders and swaps of the DLLs
/// those folders hold.
pub proof fn law_setup_swaps_only_held_dlls(game_dir: Seq<char>, dirs: Seq<(Seq<char>, bool, bool)>, m: int)
    requires
        0 <= m <= dirs.len(),
    ensures
        setup_fold(game_dir, dirs, m).len() >= 1,
        setup_fold(game_dir, dirs, m)[0] == (game_dir, None::<Seq<char>>),
        forall|j: int|
            0 <= j < setup_fold(game_dir, dirs, m).len() ==> allowed_step(
                game_dir,
                dirs,
                #[trigger] setup_fold(game_dir, dirs, m)[j],
            ),
    decreases m,
{
    if m > 0 {
        law_setup_swaps_only_held_dlls(game_dir, dirs, m - 1);
        let a = setup_fold(game_dir, dirs, m - 1);
        let (d, h32, h64) = dirs[m - 1];
        let t = dir_steps(game_dir, d, h32, h64);
        let b = setup_fold(game_dir, dirs, m);
        assert(b == a + t);
        assert forall|j: int| 0 <= j < b.len() implies allowed_step(game_dir, dirs, #[trigger] b[j]) by {
            if j < a.len() {
                assert(b[j] == a[j]);
            } else {
                let x = b[j];
                assert(x == t[j - a.len()]);
                assert(dirs[m - 1] == (d, h32, h64));
                assert(x == (d, None::<Seq<char>>) || (h32 && x == (d, Some("steam_api"@))) || (h64 && x == (
                    d,
                    Some("steam_api64"@),
                )));
            }
        }
        assert(b[0] == a[0]);
    }
}

/// Plans the full setup of a game folder: the config in the game folder,
/// then for each folder holding a Steam API DLL (with which of
/// `steam_api.dll` / `steam_api64.dll` it holds) its config (unless it is
/// the game folder) and the DLL swaps; and whether any DLL is swapped.
pub fn apply_setup(game_dir: &str, dll_dirs: &Vec<(String, bool, bool)>) -> (r: (Vec<SetupStep>, bool))
    ensures
        steps_view(r.0@) == setup_fold(game_dir@, dirs_view(dll_dirs@), dll_dirs@.len() as int),
        r.1 == exists|i: int| 0 <= i < dll_dirs@.len() && #[trigger] has_dll(dll_dirs@[i]),
        steps_view(r.0@).contains((game_dir@, None)),
        steps_view(r.0@)[0] == (game_dir@, None::<Seq<char>>),
        forall|j: int|
            0 <= j < steps_view(r.0@).len() ==> allowed_step(
                game_dir@,
                dirs_view(dll_dirs@),
                #[trigger] steps_view(r.0@)[j],
            ),
        forall|k: int|
            #![trigger dll_dirs@[k]]
            0 <= k < dll_dirs@.len() ==> {
                &&& dll_dirs@[k].1 ==> steps_view(r.0@).contains((dll_dirs@[k].0@, Some("steam_api"@)))
                &&& dll_dirs@[k].2 ==> steps_view(r.0@).contains((dll_dirs@[k].0@, Some("steam_api64"@)))
                &&& steps_view(r.0@).contains((dll_dirs@[k].0@, None))
            },
{
    let mut steps: Vec<SetupStep> = Vec::new();
    steps.push(SetupStep::WriteConfig(String::from_str(game_dir)));
    assert(steps_view(steps@) =~= seq![(game_dir@, None::<Seq<char>>)]);
    let gv = chars_of(game_dir);
    let mut any = false;
    let mut k: usize = 0;
    while k < dll_dirs.len()
        invariant
            k <= dll_dirs.len(),
            gv@ == game_dir@,
            steps_view(steps@) == setup_fold(game_dir@, dirs_view(dll_dirs@), k as int),
            any == exists|i: int| 0 <= i < k && #[trigger] has_dll(dll_dirs@[i]),
        decreases dll_dirs.len() - k,
    {
        let (d, has32, has64) = (&dll_dirs[k].0, dll_dirs[k].1, dll_dirs[k].2);
        let ghost before = steps@;
        let ghost dv = dirs_view(dll_dirs@)[k as int];
        assert(dv == (d@, has32, has64));
        if !crate::text::eq_chars(&chars_of(d.as_str()), &gv) {
            steps.push(SetupStep::WriteConfig(d.clone()));
        }
        if has32 {
            steps.push(SetupStep::SwapDll(d.clone(), String::from_str("steam_api")));
        }
        if has64 {
            steps.push(SetupStep::SwapDll(d.clone(), String::from_str("steam_api64")));
        }
        assert(steps_view(steps@) =~= steps_view(before) + dir_steps(game_dir@, d@, has32, has64));
        if has32 || has64 {
            any = true;
        }
        proof {
            assert(has_dll(dll_dirs@[k as int]) == (has32 || has64));
            if !(has32 || has64) {
                assert forall|i: int| 0 <= i < k + 1 && #[trigger] has_dll(dll_dirs@[i]) implies i < k by {}
            }
        }
        k = k + 1;
    }
    proof {
        let dv = dirs_view(dll_dirs@);
        law_every_dll_is_swapped(game_dir@, dv);
        law_setup_swaps_only_held_dlls(game_dir@, dv, dll_dirs@.len() as int);
        assert forall|k: int| #![trigger dll_dirs@[k]] 0 <= k < dll_dirs@.len() implies {
            &&& dll_dirs@[k].1 ==> steps_view(steps@).contains((dll_dirs@[k].0@, Some("steam_api"@)))
            &&& dll_dirs@[k].2 ==> steps_view(steps@).contains((dll_dirs@[k].0@, Some("steam_api64"@)))
            &&& steps_view(steps@).contains((dll_dirs@[k].0@, None))
        } by {
            assert(dv[k] == (dll_dirs@[k].0@, dll_dirs@[k].1, dll_dirs@[k].2));
        }
    }
    (steps, any)
}

/// The `DLC.txt` lines, `<app id>=<name>` each, joined by newlines, with a
/// final newline; `None` when there are no DLCs (the file is removed).
pub open spec fn dlc_lines(dlcs: Seq<(u32, Seq<char>)>) -> Seq<char>
    decreases dlcs.len(),
{
    if dlcs.len() == 0 {
        seq![]
    } else {
        dlc_lines(dlcs.drop_last()) + decimal(dlcs.last().0 as nat) + seq!['='] + dlcs.last().1 + seq!['\n']
    }
}

/// The content of `steam_settings/DLC.txt`, or `None` when there are no
/// DLCs.
pub fn dlc_file(dlc_list: &Vec<DlcApp>) -> (r: Option<String>)
    ensures
        dlc_list@.len() == 0 ==> r is None,
        dlc_list@.len() > 0 ==> (r matches Some(s) && s@ == dlc_lines(crate::steam::dlcs_view(dlc_list@))),
{
    if dlc_list.len() == 0 {
        return None;
    }
    let ghost dv = crate::steam::dlcs_view(dlc_list@);
    let mut v: Vec<char> = Vec::new();
    let mut k: usize = 0;
    while k < dlc_list.len()
        invariant
            k <= dlc_list.len(),
            dv == crate::steam::dlcs_view(dlc_list@),
            v@ == dlc_lines(dv.take(k as int)),
        decreases dlc_list.len() - k,
    {
        let d = &dlc_list[k];
        push_decimal(&mut v, d.app_id as u64);
        v.push('=');
        crate::text::extend_chars(&mut v, &chars_of(d.name.as_str()));
        v.push('\n');
        proof {
            assert(dv.take(k + 1).drop_last() =~= dv.take(k as int));
            assert(dv.take(k + 1).last() == (d.app_id, d.name@));
            assert(v@ =~= dlc_lines(dv.take(k + 1)));
        }
        k = k + 1;
    }
    assert(dv.take(dlc_list.len() as int) =~= dv);
    Some(string_of(&v))
}

/// The content of `steam_appid.txt`.
pub fn appid_text(app_id: u32) -> (r: String)
    ensures
        r@ == decimal(app_id as nat),
{
    let mut v: Vec<char> = Vec::new();
    push_decimal(&mut v, app_id as u64);
    string_of(&v)
}

/// Where a swapped DLL's current file goes: the first swap keeps the
/// original as `<name>_o.dll`; later swaps keep the current DLL as a hidden
/// `.<name>.dll.GOLDBERGDROPBACKUP` and leave the original backup alone.
/// Gives the backup's file name and whether it is to be hidden.
pub fn swap_backup_name(name: &str, original_backup_exists: bool) -> (r: (String, bool))
    ensures
        !original_backup_exists ==> r.0@ == name@ + "_o.dll"@ && !r.1,
        original_backup_exists ==> r.0@ == seq!['.'] + name@ + ".dll.GOLDBERGDROPBACKUP"@ && r.1,
{
    if !original_backup_exists {
        let mut v = chars_of(name);
        crate::text::extend_chars(&mut v, &chars_of("_o.dll"));
        (string_of(&v), false)
    } else {
        let mut v: Vec<char> = Vec::new();
        v.push('.');
        crate::text::extend_chars(&mut v, &chars_of(name));
        crate::text::extend_chars(&mut v, &chars_of(".dll.GOLDBERGDROPBACKUP"));
        assert(v@ =~= seq!['.'] + name@ + ".dll.GOLDBERGDROPBACKUP"@);
        (string_of(&v), true)
    }
}

} // verus!
