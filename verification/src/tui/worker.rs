//! The background worker's message types and its decisions: exactly one
//! response per request, with every computation error converted to an error
//! response at the job boundary rather than ending the worker.
use vstd::prelude::*;

use crate::diff::CommitDiff;
use crate::error::CustomError;
use crate::pr::{Page, Pagination};
use crate::tui::JobId;
use vstd::string::StringExecFns;

verus! {

/// A request or response together with the job it belongs to.
#[derive(Debug)]
pub struct WorkerMsg<T> {
    pub job_id: JobId,
    pub msg: T,
}

/// The long-running work the controller hands to the worker.
#[derive(Debug)]
#[allow(inconsistent_fields)]
pub enum WorkerRequest {
    /// Fetch the next page of remote history.
    LoadCommits { pagination: Option<Pagination> },
    /// Reconcile the two endpoints at the given directory indices.
    CalculateBranchDiff { from: String, from_index: usize, to: String, to_index: usize },
    /// Render one interdiff at the given width.
    RenderInterdiff { from: Option<String>, to: Option<String>, render_width: u16, scroll: u16 },
}

/// What the worker sends back, tagged with the request's job id.
#[derive(Debug)]
pub enum WorkerResponse {
    /// A failure converted to a message at the job boundary.
    Error(String),
    /// The fresh aligned comparison and the indices it was computed for.
    CalculateBranchDiff { commits: Vec<CommitDiff>, from: usize, to: usize },
    /// One rendered interdiff.
    RenderInterdiff { title: String, diff: String, scroll: u16 },
    /// One fetched history page.
    LoadCommits { page: Page<String> },
}

/// The response for a history fetch: the page on success, its error message
/// on failure.
pub fn load_commits_response(fetched: Result<Page<String>, CustomError>) -> (r: WorkerResponse)
    ensures
        fetched matches Ok(page) ==> r == (WorkerResponse::LoadCommits { page }),
        fetched matches Err(e) ==> (r matches WorkerResponse::Error(m) && m@ == e.spec_message()),
{
    match fetched {
        Ok(page) => WorkerResponse::LoadCommits { page },
        Err(e) => WorkerResponse::Error(e.message()),
    }
}

/// The response for a reconciliation: the rows with the indices they were
/// computed for on success, the error message on failure.
pub fn branch_diff_response(
    calculated: Result<Vec<CommitDiff>, CustomError>,
    from_index: usize,
    to_index: usize,
) -> (r: WorkerResponse)
    ensures
        calculated matches Ok(commits) ==> r == (WorkerResponse::CalculateBranchDiff {
            commits,
            from: from_index,
            to: to_index,
        }),
        calculated matches Err(e) ==> (r matches WorkerResponse::Error(m) && m@
            == e.spec_message()),
{
    match calculated {
        Ok(commits) => WorkerResponse::CalculateBranchDiff {
            commits,
            from: from_index,
            to: to_index,
        },
        Err(e) => WorkerResponse::Error(e.message()),
    }
}

/// The response for an interdiff render: the text under its title on
/// success, the error message on failure.
pub fn render_response(rendered: Result<String, CustomError>, title: String, scroll: u16) -> (r:
    WorkerResponse)
    ensures
        rendered matches Ok(diff) ==> r == (WorkerResponse::RenderInterdiff {
            title,
            diff,
            scroll,
        }),
        rendered matches Err(e) ==> (r matches WorkerResponse::Error(m) && m@
            == e.spec_message()),
{
    match rendered {
        Ok(diff) => WorkerResponse::RenderInterdiff { title, diff, scroll },
        Err(e) => WorkerResponse::Error(e.message()),
    }
}

/// The response for an interdiff request whose row shows no commit on either
/// side: there is nothing to render.
pub fn empty_render_response() -> (r: WorkerResponse)
    ensures
        r matches WorkerResponse::Error(m) && m@ == "no commits in this diff to render"@,
{
    WorkerResponse::Error(String::from_str("no commits in this diff to render"))
}

} // verus!
