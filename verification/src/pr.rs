//! Paged access to the rewrite history of a remote pull request: page and
//! continuation-token types, and selection of the fetcher variant that
//! matches a pull-request URL.
use vstd::prelude::*;

use crate::error::CustomError;
use crate::text::spec_has_substring;

pub mod bitbucket;
pub mod github;
pub mod none;

verus! {

/// Which end of the history a page extends.
#[derive(Debug, Clone, Copy, Default, PartialEq, Eq, Structural)]
pub enum PageDirection {
    #[default]
    Forward,
    Backward,
}

/// Continuation state for an offset-addressed history, only valid walking
/// backward.
#[derive(Debug, Clone, Copy)]
pub struct OffsetPagination {
    pub offset: usize,
    pub limit: Option<usize>,
    pub direction: PageDirection,
}

/// Continuation state for a cursor-addressed history.
#[derive(Debug)]
pub struct CursorPagination {
    pub cursor: Option<String>,
    pub limit: usize,
    pub direction: PageDirection,
}

impl Clone for CursorPagination {
    fn clone(&self) -> (r: Self)
        ensures
            r == *self,
    {
        let cursor = match &self.cursor {
            Option::None => Option::None,
            Option::Some(c) => Option::Some(c.clone()),
        };
        CursorPagination { cursor, limit: self.limit, direction: self.direction }
    }
}

/// A continuation token of either shape. Beyond its declared direction the
/// controller treats it as opaque.
#[derive(Debug)]
pub enum Pagination {
    Offset(OffsetPagination),
    Cursor(CursorPagination),
}

impl Clone for Pagination {
    fn clone(&self) -> (r: Self)
        ensures
            r == *self,
    {
        match self {
            Pagination::Offset(o) => Pagination::Offset(*o),
            Pagination::Cursor(c) => Pagination::Cursor(c.clone()),
        }
    }
}

impl Pagination {
    /// The direction this token continues in.
    pub open spec fn spec_direction(&self) -> PageDirection {
        match self {
            Pagination::Offset(o) => o.direction,
            Pagination::Cursor(c) => c.direction,
        }
    }

    /// Read the declared direction of the token.
    pub fn direction(&self) -> (r: PageDirection)
        ensures
            r == self.spec_direction(),
    {
        match self {
            Pagination::Offset(o) => o.direction,
            Pagination::Cursor(c) => c.direction,
        }
    }
}

/// One fetched slice of the history: its items, the end it extends, and the
/// token for the next slice, if there is one.
#[derive(Debug)]
pub struct Page<T> {
    pub items: Vec<T>,
    pub direction: PageDirection,
    pub next: Option<Pagination>,
}

/// The history-fetcher variant matching the arguments the viewer was started
/// with.
#[derive(Debug)]
pub enum FetcherSelection {
    /// Two literal endpoints, no remote history.
    Literal(none::NoFetcher),
    /// A GitHub pull request.
    Github(github::GithubTarget),
    /// A Bitbucket pull request.
    Bitbucket(bitbucket::BitbucketTarget),
}

#[verifier::external_type_specification]
#[verifier::external_body]
pub struct ExUrl(url::Url);

/// Relies on url::Url::parse: parses an absolute URL from a string, erring
/// on anything that is not one; the error is mapped to the URL error kind.
#[verifier::external_body]
fn parse_url(s: &str) -> (r: Result<url::Url, CustomError>)
    ensures
        r matches Err(e) ==> e is UrlError,
{
    match url::Url::parse(s) {
        Ok(u) => Ok(u),
        Err(_) => Err(CustomError::UrlError),
    }
}

/// Relies on url::Url::host_str: the host of the URL, where it has one.
#[verifier::external_body]
fn url_host(u: &url::Url) -> (r: Option<String>) {
    u.host_str().map(|h| h.to_string())
}

/// Relies on url::Url::path_segments: the slash-separated segments of the
/// path, where the URL can have a path.
#[verifier::external_body]
fn url_path_segments(u: &url::Url) -> (r: Option<Vec<String>>) {
    u.path_segments().map(|segs| segs.map(|s| s.to_string()).collect())
}

/// Decide the fetcher variant from what the URL showed: a host naming GitHub
/// wants a GitHub target, one naming Bitbucket a Bitbucket target, and any
/// other host selects no fetcher; a matching host without usable path
/// segments is a URL error.
pub fn select_fetcher(host: &str, segments: &Option<Vec<String>>) -> (r: Result<
    Option<FetcherSelection>,
    CustomError,
>)
    ensures
        r matches Err(e) ==> e is UrlError,
        !(r matches Ok(Some(FetcherSelection::Literal(_)))),
        spec_has_substring(host@, "github.com"@) ==> match segments {
            Option::None => r is Err,
            Option::Some(sv) => if github::valid_github_path(sv@) {
                r matches Ok(o) && o matches Some(FetcherSelection::Github(t))
                    && github::spec_github_target(sv@, t)
            } else {
                r is Err
            },
        },
        !spec_has_substring(host@, "github.com"@) && spec_has_substring(host@, "bitbucket"@)
            ==> match segments {
            Option::None => r is Err,
            Option::Some(sv) => if bitbucket::valid_bitbucket_path(sv@) {
                r matches Ok(o) && o matches Some(FetcherSelection::Bitbucket(t))
                    && bitbucket::spec_bitbucket_target(sv@, t)
            } else {
                r is Err
            },
        },
        !spec_has_substring(host@, "github.com"@) && !spec_has_substring(host@, "bitbucket"@) ==> (
        r matches Ok(o) && o is None),
{
    if crate::text::has_substring(host, "github.com") {
        match segments {
            Option::Some(sv) => match github::github_target(sv) {
                Ok(t) => Ok(Some(FetcherSelection::Github(t))),
                Err(e) => Err(e),
            },
            Option::None => Err(CustomError::UrlError),
        }
    } else if crate::text::has_substring(host, "bitbucket") {
        match segments {
            Option::Some(sv) => match bitbucket::bitbucket_target(sv) {
                Ok(t) => Ok(Some(FetcherSelection::Bitbucket(t))),
                Err(e) => Err(e),
            },
            Option::None => Err(CustomError::UrlError),
        }
    } else {
        Ok(None)
    }
}

/// Choose the history fetcher for the viewer's arguments: two literal
/// endpoints and no URL give the trivial fetcher; a pull-request URL is
/// parsed and its host decides the remote variant per [`select_fetcher`];
/// any other combination selects none. Every failure is a URL error.
pub fn get_pr_fetcher(url: Option<String>, from: Option<String>, to: Option<String>) -> (r: Result<
    Option<FetcherSelection>,
    CustomError,
>)
    ensures
        url is None ==> (from matches Some(f) ==> (to matches Some(t) ==> (r matches Ok(o)
            && o matches Some(FetcherSelection::Literal(nf)) && nf.from@ == f@ && nf.to@ == t@))),
        url is None && (from is None || to is None) ==> (r matches Ok(o) && o is None),
        url is Some ==> ((r matches Err(e) ==> e is UrlError) && !(r matches Ok(
            Some(FetcherSelection::Literal(_)),
        ))),
{
    match (url, from, to) {
        (Option::None, Option::Some(f), Option::Some(t)) => Ok(
            Some(FetcherSelection::Literal(none::NoFetcher::new(f.as_str(), t.as_str()))),
        ),
        (Option::Some(u), _, _) => {
            let parsed = match parse_url(u.as_str()) {
                Ok(p) => p,
                Err(e) => {
                    return Err(e);
                },
            };
            let host = match url_host(&parsed) {
                Option::Some(h) => h,
                Option::None => {
                    return Err(CustomError::UrlError);
                },
            };
            let segments = url_path_segments(&parsed);
            select_fetcher(host.as_str(), &segments)
        },
        (Option::None, _, _) => Ok(None),
    }
}

} // verus!
