//! The GitHub pull-request history shape: the response of the timeline
//! query, how a history page is read out of it, and the request parameters
//! of the cursor-addressed pagination it requires.
use vstd::prelude::*;

use crate::error::CustomError;
use crate::pr::{CursorPagination, Page, PageDirection, Pagination};
use crate::text::{digits_of, all_digits, decimal_value, str_views};
use vstd::string::StringExecFns;

verus! {

/// How many history entries one page asks for when no token says otherwise.
pub const DEFAULT_PAGE_SIZE: usize = 25;

/// A commit reference in the timeline.
#[derive(Debug)]
pub struct Commit {
    pub oid: String,
}

/// One force-push event: the head commit before and after it.
#[derive(Debug)]
pub struct Node {
    pub before_commit: Commit,
    pub after_commit: Commit,
}

/// One edge of the timeline connection.
#[derive(Debug)]
pub struct Edge {
    pub node: Node,
}

/// Whether and where the timeline continues backward.
#[derive(Debug)]
pub struct PageInfo {
    pub has_previous_page: bool,
    pub start_cursor: Option<String>,
}

/// The timeline slice: its edges and its page info.
#[derive(Debug)]
pub struct TimelineItems {
    pub edges: Vec<Edge>,
    pub page_info: PageInfo,
}

/// The pull request holding the timeline.
#[derive(Debug)]
pub struct PullRequest {
    pub timeline_items: TimelineItems,
}

/// The repository holding the pull request.
#[derive(Debug)]
pub struct Repository {
    pub pull_request: PullRequest,
}

/// The data envelope of the response.
#[derive(Debug)]
pub struct Data {
    pub repository: Repository,
}

/// The whole response of the timeline query.
#[derive(Debug)]
pub struct GraphQlResponse {
    pub data: Data,
}

/// The history items read from a timeline slice, oldest first: the head
/// after every force-push, and, on the oldest page only, the head before the
/// first one.
pub open spec fn spec_github_items(edges: Seq<Edge>, has_previous_page: bool) -> Seq<Seq<char>> {
    let afters = Seq::new(edges.len(), |k: int| edges[k].node.after_commit.oid@);
    if !has_previous_page && edges.len() > 0 {
        seq![edges[0].node.before_commit.oid@] + afters
    } else {
        afters
    }
}

/// Read a history page out of a timeline response: the items per
/// [`spec_github_items`], walking backward, with a cursor token exactly when
/// an earlier page exists.
pub fn page_from_response(value: &GraphQlResponse) -> (r: Page<String>)
    ensures
        str_views(r.items@) == spec_github_items(
            value.data.repository.pull_request.timeline_items.edges@,
            value.data.repository.pull_request.timeline_items.page_info.has_previous_page,
        ),
        r.direction == PageDirection::Backward,
        value.data.repository.pull_request.timeline_items.page_info.has_previous_page ==> (
        r.next matches Some(Pagination::Cursor(c)) && c.cursor
            == value.data.repository.pull_request.timeline_items.page_info.start_cursor && c.limit
            == value.data.repository.pull_request.timeline_items.edges@.len() && c.direction
            == PageDirection::Backward),
        !value.data.repository.pull_request.timeline_items.page_info.has_previous_page
            ==> r.next is None,
{
    let items_src = &value.data.repository.pull_request.timeline_items;
    let hpp = items_src.page_info.has_previous_page;
    let edges = &items_src.edges;
    let mut items: Vec<String> = Vec::new();
    if !hpp && edges.len() > 0 {
        items.push(edges[0].node.before_commit.oid.clone());
    }
    let ghost base = items@.len();
    let mut k: usize = 0;
    while k < edges.len()
        invariant
            k <= edges@.len(),
            items@.len() == base + k,
            base == if !hpp && edges@.len() > 0 {
                1int
            } else {
                0int
            },
            base == 1 ==> items@[0]@ == edges@[0].node.before_commit.oid@,
            forall|m: int| 0 <= m < k ==> items@[base + m]@ == edges@[m].node.after_commit.oid@,
        decreases edges@.len() - k,
    {
        items.push(edges[k].node.after_commit.oid.clone());
        k = k + 1;
    }
    proof {
        assert(str_views(items@) =~= spec_github_items(edges@, hpp));
    }
    let next = if hpp {
        let cursor = match &items_src.page_info.start_cursor {
            Option::None => Option::None,
            Option::Some(c) => Option::Some(c.clone()),
        };
        Some(
            Pagination::Cursor(
                CursorPagination {
                    cursor,
                    limit: edges.len(),
                    direction: PageDirection::Backward,
                },
            ),
        )
    } else {
        None
    };
    Page { items, direction: PageDirection::Backward, next }
}

/// The request parameters demanded by the cursor-addressed history: no token
/// starts from the newest entries with the default page size; a cursor token
/// continues from its position; an offset token is rejected.
pub fn cursor_params(pagination: Option<&Pagination>) -> (r: Result<
    (Option<String>, usize),
    CustomError,
>)
    ensures
        pagination is None ==> (r matches Ok((c, l)) && c is None && l == DEFAULT_PAGE_SIZE),
        pagination matches Some(p) ==> (*p) matches Pagination::Cursor(cp) ==> (r matches Ok(
            (c, l),
        ) && c == cp.cursor && l == cp.limit),
        (pagination matches Some(p) && *p matches Pagination::Offset(_)) ==> (r matches Err(e)
            && e matches CustomError::ProcessError(m) && m@
            == "cursor based pagination is required for github"@),
{
    match pagination {
        Option::None => Ok((None, DEFAULT_PAGE_SIZE)),
        Option::Some(Pagination::Cursor(cp)) => {
            let cursor = match &cp.cursor {
                Option::None => Option::None,
                Option::Some(c) => Option::Some(c.clone()),
            };
            Ok((cursor, cp.limit))
        },
        Option::Some(Pagination::Offset(_)) => Err(
            CustomError::ProcessError(
                String::from_str("cursor based pagination is required for github"),
            ),
        ),
    }
}

/// The repository and pull request a GitHub URL points at.
#[derive(Debug)]
pub struct GithubTarget {
    pub owner: String,
    pub repo: String,
    pub pr_id: usize,
}

/// The path of a GitHub pull-request URL: `owner / repo / "pull" / number`,
/// with a number that fits the machine.
pub open spec fn valid_github_path(segments: Seq<String>) -> bool {
    &&& segments.len() >= 4
    &&& segments[2]@ == "pull"@
    &&& digits_of(segments[3]@).len() > 0
    &&& all_digits(digits_of(segments[3]@))
    &&& decimal_value(digits_of(segments[3]@)) <= usize::MAX
}

/// `t` is the target those path segments point at.
pub open spec fn spec_github_target(segments: Seq<String>, t: GithubTarget) -> bool {
    &&& t.owner@ == segments[0]@
    &&& t.repo@ == segments[1]@
    &&& t.pr_id == decimal_value(digits_of(segments[3]@))
}

/// Read the target out of the path segments of a pull-request URL;
/// anything not shaped `owner / repo / "pull" / number` is a URL error.
pub fn github_target(segments: &Vec<String>) -> (r: Result<GithubTarget, CustomError>)
    ensures
        r is Ok <==> valid_github_path(segments@),
        r matches Ok(t) ==> spec_github_target(segments@, t),
        r matches Err(e) ==> e is UrlError,
{
    if segments.len() < 4 {
        return Err(CustomError::UrlError);
    }
    if !crate::text::str_eq(segments[2].as_str(), "pull") {
        return Err(CustomError::UrlError);
    }
    match crate::text::parse_usize(segments[3].as_str()) {
        Option::Some(pr_id) => Ok(
            GithubTarget { owner: segments[0].clone(), repo: segments[1].clone(), pr_id },
        ),
        Option::None => Err(CustomError::UrlError),
    }
}

} // verus!
