//! Telling the jobs that are JSON from those that are not.

use vstd::prelude::*;

verus! {

/// Whether a text is one JSON value, as `serde_json` reads it.
pub uninterp spec fn json_valid(text: Seq<char>) -> bool;

/// Runs `serde_json::from_str` on `text` with `serde_json::Value` as the
/// target and reports whether it returned a value. The parser reads nothing
/// but the text, so the answer is the same whenever the text is.
#[verifier::external_body]
fn parses(text: &str) -> (valid: bool)
    ensures
        valid == json_valid(text@),
{
    serde_json::from_str::<serde_json::Value>(text).is_ok()
}

/// A job as the dashboard shows it: the job itself when it is JSON, nothing
/// when it is not.
pub fn shown(job: String, valid: bool) -> (entry: Option<String>)
    ensures
        entry == (if valid {
            Some(job)
        } else {
            None
        }),
{
    if valid {
        Some(job)
    } else {
        None
    }
}

/// What is shown for each of `jobs`.
pub open spec fn shown_jobs(jobs: Seq<String>) -> Seq<Option<String>> {
    jobs.map_values(
        |job: String|
            if json_valid(job@) {
                Some(job)
            } else {
                None
            },
    )
}

/// Replaces every job that is not JSON by nothing and keeps the others, in
/// their order.
pub fn readable_jobs(jobs: Vec<String>) -> (entries: Vec<Option<String>>)
    ensures
        entries@ == shown_jobs(jobs@),
{
    let mut entries: Vec<Option<String>> = Vec::new();
    let mut position: usize = 0;
    while position < jobs.len()
        invariant
            position <= jobs@.len(),
            entries@ == shown_jobs(jobs@.take(position as int)),
        decreases jobs@.len() - position,
    {
        let job = jobs[position].clone();
        let valid = parses(job.as_str());
        entries.push(shown(job, valid));
        position = position + 1;
        assert(entries@ =~= shown_jobs(jobs@.take(position as int)));
    }
    assert(jobs@.take(position as int) =~= jobs@);
    entries
}

} // verus!
