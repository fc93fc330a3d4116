//! Downloading workshop items with SteamCMD: the app id an item needs, the
//! batch script run in one SteamCMD session, and where a finished item is
//! found and copied to.

use vstd::prelude::*;
use crate::paths::{join, spec_join};
use crate::text::{chars_of, decimal, push_decimal, string_of};
use crate::workshop::{folder_name_cuttable, sanitize_folder_name, spec_sanitize_folder_name};

verus! {

broadcast use vstd::string::group_string_axioms;

/// One workshop item to pull in a batched SteamCMD session.
pub struct WorkshopJob {
    pub app_id: u32,
    pub workshop_id: u64,
    pub dest_dir: String,
    pub mod_name: String,
}

/// Why a SteamCMD download failed.
pub enum SteamCmdError {
    /// No app id could be found for the item.
    MissingAppId(u64),
    /// SteamCMD left an unfinished download in this folder.
    Incomplete(String),
    /// SteamCMD finished but this content folder is missing or empty.
    ContentMissing(String),
    /// The copied folder is empty.
    EmptyCopy(String),
}

/// The app id a job runs with: its own, else `GetPublishedFileDetails`'s
/// (when known and not 0), else the item page's, else 0.
pub open spec fn spec_resolve_app_id(app_id: u32, meta_app: Option<u32>, page_app: Option<u32>) -> u32 {
    if app_id != 0 {
        app_id
    } else if meta_app is Some && meta_app.unwrap() != 0 {
        meta_app.unwrap()
    } else {
        match page_app {
            Some(a) => a,
            None => 0,
        }
    }
}

/// The app id a job runs with.
pub fn resolve_app_id(app_id: u32, meta_app: Option<u32>, page_app: Option<u32>) -> (r: u32)
    ensures
        r == spec_resolve_app_id(app_id, meta_app, page_app),
{
    if app_id != 0 {
        return app_id;
    }
    match meta_app {
        Some(a) => if a != 0 {
            return a;
        },
        None => {},
    }
    match page_app {
        Some(a) => a,
        None => 0,
    }
}

/// The `workshop_download_item` lines for the jobs with an app id.
pub open spec fn download_lines(jobs: Seq<(u32, u64)>) -> Seq<char>
    decreases jobs.len(),
{
    if jobs.len() == 0 {
        seq![]
    } else {
        let j = jobs.last();
        download_lines(jobs.drop_last()) + if j.0 != 0 {
            "workshop_download_item "@ + decimal(j.0 as nat) + seq![' '] + decimal(j.1 as nat) + seq!['\n']
        } else {
            seq![]
        }
    }
}

/// The batch script: keep going after a failed item, never prompt for a
/// password, log in anonymously, download each item that has an app id,
/// quit.
pub open spec fn spec_batch_script(jobs: Seq<(u32, u64)>) -> Seq<char> {
    "@ShutdownOnFailedCommand 0\n@NoPromptForPassword 1\nlogin anonymous\n"@ + download_lines(jobs) + "quit\n"@
}

/// The SteamCMD script for a batch of (app id, workshop id) pairs.
pub fn batch_script(jobs: &Vec<(u32, u64)>) -> (r: String)
    ensures
        r@ == spec_batch_script(jobs@),
{
    let mut v = chars_of("@ShutdownOnFailedCommand 0\n@NoPromptForPassword 1\nlogin anonymous\n");
    let ghost head = v@;
    let mut k: usize = 0;
    while k < jobs.len()
        invariant
            k <= jobs.len(),
            v@ == head + download_lines(jobs@.take(k as int)),
        decreases jobs.len() - k,
    {
        let (app, wid) = jobs[k];
        if app != 0 {
            crate::text::extend_chars(&mut v, &chars_of("workshop_download_item "));
            push_decimal(&mut v, app as u64);
            v.push(' ');
            push_decimal(&mut v, wid);
            v.push('\n');
        }
        proof {
            assert(jobs@.take(k + 1).drop_last() =~= jobs@.take(k as int));
            assert(jobs@.take(k + 1).last() == (app, wid));
            assert(v@ =~= head + download_lines(jobs@.take(k + 1)));
        }
        k = k + 1;
    }
    assert(jobs@.take(jobs.len() as int) =~= jobs@);
    crate::text::extend_chars(&mut v, &chars_of("quit\n"));
    string_of(&v)
}

/// `steamapps/workshop/<kind>/<app id>/<workshop id>` under SteamCMD's
/// folder.
pub open spec fn workshop_dir(steamcmd_dir: Seq<char>, kind: Seq<char>, app_id: u32, workshop_id: u64) -> Seq<char> {
    spec_join(
        spec_join(
            spec_join(spec_join(spec_join(steamcmd_dir, "steamapps"@), "workshop"@), kind),
            decimal(app_id as nat),
        ),
        decimal(workshop_id as nat),
    )
}

/// `steamapps/workshop/<kind>/<app id>/<workshop id>` under SteamCMD's
/// folder, as a path.
pub fn workshop_dir_exec(steamcmd_dir: &str, kind: &str, app_id: u32, workshop_id: u64) -> (r: String)
    ensures
        r@ == workshop_dir(steamcmd_dir@, kind@, app_id, workshop_id),
{
    let a = join(steamcmd_dir, "steamapps");
    let b = join(a.as_str(), "workshop");
    let c = join(b.as_str(), kind);
    let mut av: Vec<char> = Vec::new();
    push_decimal(&mut av, app_id as u64);
    let d = join(c.as_str(), string_of(&av).as_str());
    let mut wv: Vec<char> = Vec::new();
    push_decimal(&mut wv, workshop_id);
    join(d.as_str(), string_of(&wv).as_str())
}

/// Where a finished item is copied to: `dest_dir` joined with the
/// sanitized mod name.
pub open spec fn copy_target(dest_dir: Seq<char>, mod_name: Seq<char>) -> Seq<char> {
    spec_join(dest_dir, spec_sanitize_folder_name(mod_name))
}

/// What to do with one item after the SteamCMD session: with no app id it
/// failed; with files in its content folder it is copied (the content
/// folder and the target); otherwise it is unfinished (files in the
/// downloads folder) or missing.
pub fn download_workshop_item(
    job: &WorkshopJob,
    steamcmd_dir: &str,
    content_has_files: bool,
    partial_has_files: bool,
) -> (r: Result<(String, String), SteamCmdError>)
    requires
        folder_name_cuttable(job.mod_name@),
    ensures
        job.app_id == 0 ==> (r matches Err(SteamCmdError::MissingAppId(w)) && w == job.workshop_id),
        job.app_id != 0 && content_has_files ==> (r matches Ok((src, target)) && src@ == workshop_dir(
            steamcmd_dir@,
            "content"@,
            job.app_id,
            job.workshop_id,
        ) && target@ == copy_target(job.dest_dir@, job.mod_name@)),
        job.app_id != 0 && !content_has_files && partial_has_files ==> (r matches Err(
            SteamCmdError::Incomplete(d),
        ) && d@ == workshop_dir(steamcmd_dir@, "downloads"@, job.app_id, job.workshop_id)),
        job.app_id != 0 && !content_has_files && !partial_has_files ==> (r matches Err(
            SteamCmdError::ContentMissing(d),
        ) && d@ == workshop_dir(steamcmd_dir@, "content"@, job.app_id, job.workshop_id)),
{
    if job.app_id == 0 {
        return Err(SteamCmdError::MissingAppId(job.workshop_id));
    }
    let content = workshop_dir_exec(steamcmd_dir, "content", job.app_id, job.workshop_id);
    if !content_has_files {
        if partial_has_files {
            let partial = workshop_dir_exec(steamcmd_dir, "downloads", job.app_id, job.workshop_id);
            return Err(SteamCmdError::Incomplete(partial));
        }
        return Err(SteamCmdError::ContentMissing(content));
    }
    let folder = sanitize_folder_name(job.mod_name.as_str());
    let target = join(job.dest_dir.as_str(), folder.as_str());
    Ok((content, target))
}

/// The result of downloading one item, which runs as a SteamCMD session
/// for a batch of that one job: the session's error when it could not run,
/// else the batch's first result (`SteamCMD returned no result` when it
/// gave none).
pub fn single_item_result(session: Result<Vec<Result<String, String>>, String>) -> (r: Result<String, String>)
    ensures
        match session {
            Err(e) => r == Err::<String, String>(e),
            Ok(v) => if v@.len() > 0 {
                r == v@[0]
            } else {
                r matches Err(m) && m@ == "SteamCMD returned no result"@
            },
        },
{
    match session {
        Err(e) => Err(e),
        Ok(mut v) => if v.len() > 0 {
            v.remove(0)
        } else {
            Err(String::from_str("SteamCMD returned no result"))
        },
    }
}

} // verus!
