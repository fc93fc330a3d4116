//! The Goldberg emulator release: finding the download link on its page
//! and deciding whether the cached copy is current.

use vstd::prelude::*;
use crate::pattern::CharClass;
use crate::scan::{find_exec, leftmost_capture, make_pattern, simple_spec, PatternSpec};
use crate::text::{chars_of, string_of_range, trim};

verus! {

broadcast use vstd::string::group_string_axioms;

/// The job artifact link:
/// `https://gitlab\.com/Mr_Goldberg/goldberg_emulator/-/jobs/(?P<jobid>\d+)/artifacts/download`.
pub open spec fn job_artifact_pattern() -> PatternSpec {
    simple_spec(
        "https://gitlab.com/Mr_Goldberg/goldberg_emulator/-/jobs/"@,
        false,
        false,
        CharClass::Decimal,
        true,
        "/artifacts/download"@,
    )
}

/// The first artifact link on the page: the whole link and its job id.
pub open spec fn spec_find_job_artifact(page: Seq<char>) -> Option<(Seq<char>, Seq<char>)> {
    match leftmost_capture(job_artifact_pattern(), page) {
        Some((c0, c1)) => Some(
            (
                page.subrange(
                    c0 - job_artifact_pattern().p1.len(),
                    c1 + job_artifact_pattern().p3.len(),
                ),
                page.subrange(c0, c1),
            ),
        ),
        None => None,
    }
}

/// Finds the newest build's download link and job id on the release page.
pub fn find_job_artifact(page: &str) -> (r: Option<(String, String)>)
    ensures
        r matches Some((url, job)) ==> spec_find_job_artifact(page@) == Some((url@, job@)),
        r is None ==> spec_find_job_artifact(page@) is None,
{
    let v = chars_of(page);
    let p = make_pattern(
        "https://gitlab.com/Mr_Goldberg/goldberg_emulator/-/jobs/",
        false,
        false,
        CharClass::Decimal,
        true,
        "/artifacts/download",
    );
    match find_exec(&p, &v, 0) {
        Some((c0, c1)) => {
            proof {
                crate::scan::lemma_leftmost_capture_start(p@, v@, c0 as int, c1 as int);
            }
            let n = v.len();
            assert(c1 + p.p3.len() <= n);
            let start = c0 - p.p1.len();
            let end = c1 + p.p3.len();
            Some((string_of_range(&v, start, end), string_of_range(&v, c0, c1)))
        },
        None => None,
    }
}

/// The cached build is stale unless its saved job id, trimmed, is the
/// page's.
pub open spec fn spec_needs_download(local_job_id: Option<Seq<char>>, remote_job_id: Seq<char>) -> bool {
    match local_job_id {
        Some(l) => trim(l) != remote_job_id,
        None => true,
    }
}

/// Whether the cached Goldberg build has to be downloaded again
/// (`local_job_id`: the saved `job_id` file, `None` when unreadable).
pub fn needs_download(local_job_id: Option<&str>, remote_job_id: &str) -> (r: bool)
    ensures
        r == spec_needs_download(
            match local_job_id {
                Some(l) => Some(l@),
                None => None,
            },
            remote_job_id@,
        ),
{
    match local_job_id {
        Some(l) => {
            let t = crate::text::trim_str(l);
            !crate::text::eq_chars(&chars_of(t.as_str()), &chars_of(remote_job_id))
        },
        None => true,
    }
}

/// The cache holds a Steam API DLL (`steam_api.dll` or `steam_api64.dll`).
pub fn has_steam_api_dll(has_steam_api: bool, has_steam_api64: bool) -> (r: bool)
    ensures
        r == (has_steam_api || has_steam_api64),
{
    has_steam_api || has_steam_api64
}

/// Whether the cached Goldberg build is used as it is: its saved job id
/// (`local_job_id`, `None` when unreadable), trimmed, is the page's
/// (`remote_job_id`), and the cache holds a Steam API DLL (`dll_present`);
/// otherwise the build is downloaded again.
pub fn use_cached_build(local_job_id: Option<&str>, remote_job_id: &str, dll_present: bool) -> (r: bool)
    ensures
        r == (!spec_needs_download(
            match local_job_id {
                Some(l) => Some(l@),
                None => None,
            },
            remote_job_id@,
        ) && dll_present),
{
    !needs_download(local_job_id, remote_job_id) && dll_present
}

} // verus!
