//! The Bitbucket pull-request history shape: the activity feed, how a
//! history page is read out of its rescope events, and the request
//! parameters of the offset-addressed pagination it requires.
use vstd::prelude::*;

use crate::error::CustomError;
use crate::pr::{OffsetPagination, Page, PageDirection, Pagination};
use crate::text::str_views;
use vstd::string::StringExecFns;

verus! {

/// One rescope (force-push) event: the head hashes before and after it on
/// both sides of the pull request.
#[derive(Debug)]
pub struct PrRescopeAction {
    pub from_hash: String,
    pub previous_from_hash: String,
    pub to_hash: String,
    pub previous_to_hash: String,
}

/// One entry of the activity feed; only rescope events carry history.
#[derive(Debug)]
pub enum PrActivityEntry {
    Rescoped(PrRescopeAction),
    Unknown,
}

/// One slice of the activity feed, newest entries first, with its paging
/// bookkeeping.
#[derive(Debug)]
pub struct PrActivity {
    pub is_last_page: bool,
    pub limit: Option<usize>,
    pub next_page_start: Option<u32>,
    pub size: usize,
    pub start: u32,
    pub values: Vec<PrActivityEntry>,
}

/// The rescope events of a feed slice, in feed order.
pub open spec fn rescoped_actions(values: Seq<PrActivityEntry>) -> Seq<PrRescopeAction>
    decreases values.len(),
{
    if values.len() == 0 {
        Seq::empty()
    } else {
        let rest = rescoped_actions(values.drop_last());
        match values.last() {
            PrActivityEntry::Rescoped(a) => rest + seq![a],
            PrActivityEntry::Unknown => rest,
        }
    }
}

/// The history items read from a feed slice, oldest first: the feed lists
/// rescopes newest first, so their head hashes are emitted in reverse, and
/// on the oldest page only, the hash before the oldest rescope comes first.
pub open spec fn spec_bitbucket_items(
    values: Seq<PrActivityEntry>,
    is_last_page: bool,
) -> Seq<Seq<char>> {
    let acts = rescoped_actions(values);
    let n = acts.len() as int;
    let rev_hashes = Seq::new(acts.len(), |m: int| acts[n - 1 - m].from_hash@);
    if is_last_page && n > 0 {
        seq![acts[n - 1].previous_from_hash@] + rev_hashes
    } else {
        rev_hashes
    }
}

/// The offset the next page starts at: past this one by its limit, or by its
/// entry count when it declared none.
pub open spec fn spec_next_offset(value: PrActivity) -> int {
    value.start + match value.limit {
        Some(l) => l as int,
        None => value.values.len() as int,
    }
}

/// Read a history page out of a feed slice: the items per
/// [`spec_bitbucket_items`], walking backward, with an offset token exactly
/// when this is not the last page.
pub fn page_from_activity(value: &PrActivity) -> (r: Page<String>)
    requires
        spec_next_offset(*value) <= usize::MAX,
    ensures
        str_views(r.items@) == spec_bitbucket_items(value.values@, value.is_last_page),
        r.direction == PageDirection::Backward,
        !value.is_last_page ==> (r.next matches Some(Pagination::Offset(o)) && o.offset
            == spec_next_offset(*value) && o.limit == value.limit && o.direction
            == PageDirection::Backward),
        value.is_last_page ==> r.next is None,
{
    let mut actions: Vec<&PrRescopeAction> = Vec::new();
    let mut k: usize = 0;
    proof {
        assert(value.values@.take(0) =~= Seq::<PrActivityEntry>::empty());
    }
    while k < value.values.len()
        invariant
            k <= value.values@.len(),
            actions@.len() == rescoped_actions(value.values@.take(k as int)).len(),
            forall|m: int|
                0 <= m < actions@.len() ==> *actions@[m] == rescoped_actions(
                    value.values@.take(k as int),
                )[m],
        decreases value.values@.len() - k,
    {
        proof {
            assert(value.values@.take(k + 1).drop_last() =~= value.values@.take(k as int));
            assert(value.values@.take(k + 1).last() == value.values@[k as int]);
        }
        match &value.values[k] {
            PrActivityEntry::Rescoped(a) => {
                actions.push(a);
            },
            PrActivityEntry::Unknown => {},
        }
        k = k + 1;
    }
    proof {
        assert(value.values@.take(value.values@.len() as int) =~= value.values@);
    }
    let ghost acts = rescoped_actions(value.values@);
    let n = actions.len();
    let mut items: Vec<String> = Vec::new();
    if value.is_last_page && n > 0 {
        items.push(actions[n - 1].previous_from_hash.clone());
    }
    let ghost base = items@.len();
    let mut t: usize = 0;
    while t < n
        invariant
            t <= n,
            n == actions@.len(),
            n == acts.len(),
            forall|m: int| 0 <= m < n ==> *actions@[m] == acts[m],
            items@.len() == base + t,
            base == if value.is_last_page && n > 0 {
                1int
            } else {
                0int
            },
            base == 1 ==> items@[0]@ == acts[n - 1].previous_from_hash@,
            forall|m: int| 0 <= m < t ==> (#[trigger] items@[base + m])@ == acts[n - 1 - m].from_hash@,
        decreases n - t,
    {
        items.push(actions[n - 1 - t].from_hash.clone());
        t = t + 1;
    }
    proof {
        let res = items@;
        let want = spec_bitbucket_items(value.values@, value.is_last_page);
        assert forall|idx: int| 0 <= idx < res.len() implies res[idx]@ == want[idx] by {
            if idx >= base {
                assert(res[base + (idx - base)]@ == acts[n - 1 - (idx - base)].from_hash@);
            }
        }
        assert(str_views(items@) =~= want);
    }
    let next = if !value.is_last_page {
        let step = match value.limit {
            Option::Some(l) => l,
            Option::None => value.values.len(),
        };
        Some(
            Pagination::Offset(
                OffsetPagination {
                    offset: (value.start as usize) + step,
                    limit: value.limit,
                    direction: PageDirection::Backward,
                },
            ),
        )
    } else {
        None
    };
    Page { items, direction: PageDirection::Backward, next }
}

/// The request parameters demanded by the offset-addressed history: no token
/// starts at the head with no explicit limit; an offset token continues from
/// its position; a cursor token is rejected.
pub fn offset_params(pagination: Option<&Pagination>) -> (r: Result<
    (usize, Option<usize>),
    CustomError,
>)
    ensures
        pagination is None ==> (r matches Ok((o, l)) && o == 0 && l is None),
        pagination matches Some(p) ==> (*p) matches Pagination::Offset(op) ==> (r matches Ok(
            (o, l),
        ) && o == op.offset && l == op.limit),
        (pagination matches Some(p) && *p matches Pagination::Cursor(_)) ==> (r matches Err(e)
            && e matches CustomError::ProcessError(m) && m@
            == "offset based pagination is required for bitbucket"@),
{
    match pagination {
        Option::None => Ok((0, None)),
        Option::Some(Pagination::Offset(op)) => Ok((op.offset, op.limit)),
        Option::Some(Pagination::Cursor(_)) => Err(
            CustomError::ProcessError(
                String::from_str("offset based pagination is required for bitbucket"),
            ),
        ),
    }
}

/// The project, repository and pull request a Bitbucket URL points at.
#[derive(Debug)]
pub struct BitbucketTarget {
    pub project: String,
    pub repo: String,
    pub pr_id: String,
}

/// The path of a Bitbucket pull-request URL:
/// `"projects" / project / "repos" / repo / "pull-requests" / id`.
pub open spec fn valid_bitbucket_path(segments: Seq<String>) -> bool {
    &&& segments.len() >= 6
    &&& segments[0]@ == "projects"@
    &&& segments[2]@ == "repos"@
    &&& segments[4]@ == "pull-requests"@
}

/// `t` is the target those path segments point at.
pub open spec fn spec_bitbucket_target(segments: Seq<String>, t: BitbucketTarget) -> bool {
    &&& t.project@ == segments[1]@
    &&& t.repo@ == segments[3]@
    &&& t.pr_id@ == segments[5]@
}

/// Read the target out of the path segments of a pull-request URL; anything
/// not shaped `"projects" / project / "repos" / repo / "pull-requests" / id`
/// is a URL error.
pub fn bitbucket_target(segments: &Vec<String>) -> (r: Result<BitbucketTarget, CustomError>)
    ensures
        r is Ok <==> valid_bitbucket_path(segments@),
        r matches Ok(t) ==> spec_bitbucket_target(segments@, t),
        r matches Err(e) ==> e is UrlError,
{
    if segments.len() < 6 {
        return Err(CustomError::UrlError);
    }
    if !crate::text::str_eq(segments[0].as_str(), "projects") {
        return Err(CustomError::UrlError);
    }
    if !crate::text::str_eq(segments[2].as_str(), "repos") {
        return Err(CustomError::UrlError);
    }
    if !crate::text::str_eq(segments[4].as_str(), "pull-requests") {
        return Err(CustomError::UrlError);
    }
    Ok(
        BitbucketTarget {
            project: segments[1].clone(),
            repo: segments[3].clone(),
            pr_id: segments[5].clone(),
        },
    )
}

} // verus!
