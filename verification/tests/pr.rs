use diffsoup::error::CustomError;
use diffsoup::pr::bitbucket::{
    bitbucket_target, offset_params, page_from_activity, PrActivity, PrActivityEntry,
    PrRescopeAction,
};
use diffsoup::pr::github::{
    cursor_params, github_target, page_from_response, Commit, Data, Edge, GraphQlResponse, Node,
    PageInfo, PullRequest, Repository, TimelineItems, DEFAULT_PAGE_SIZE,
};
use diffsoup::pr::none::NoFetcher;
use diffsoup::pr::{
    get_pr_fetcher, CursorPagination, FetcherSelection, OffsetPagination, Page, PageDirection,
    Pagination,
};
use diffsoup::text::{has_substring, parse_usize, str_eq};

fn strings(items: &[&str]) -> Vec<String> {
    items.iter().map(|s| s.to_string()).collect()
}

fn edge(before: &str, after: &str) -> Edge {
    Edge {
        node: Node {
            before_commit: Commit { oid: before.to_string() },
            after_commit: Commit { oid: after.to_string() },
        },
    }
}

fn response(edges: Vec<Edge>, has_previous_page: bool, start_cursor: Option<&str>) -> GraphQlResponse {
    GraphQlResponse {
        data: Data {
            repository: Repository {
                pull_request: PullRequest {
                    timeline_items: TimelineItems {
                        edges,
                        page_info: PageInfo {
                            has_previous_page,
                            start_cursor: start_cursor.map(|c| c.to_string()),
                        },
                    },
                },
            },
        },
    }
}

fn rescope(from_hash: &str, previous_from_hash: &str) -> PrActivityEntry {
    PrActivityEntry::Rescoped(PrRescopeAction {
        from_hash: from_hash.to_string(),
        previous_from_hash: previous_from_hash.to_string(),
        to_hash: "t".to_string(),
        previous_to_hash: "pt".to_string(),
    })
}

fn activity(values: Vec<PrActivityEntry>, is_last_page: bool, start: u32, limit: Option<usize>) -> PrActivity {
    PrActivity { is_last_page, limit, next_page_start: None, size: 0, start, values }
}

#[test]
fn literal_fetcher_serves_its_two_endpoints() {
    let fetcher = NoFetcher::new("base", "tip");
    let page = fetcher.fetch_history(None).expect("the literal fetcher never fails");
    assert_eq!(page.items, strings(&["base", "tip"]));
    assert!(matches!(page.direction, PageDirection::Backward));
    assert!(page.next.is_none());
}

#[test]
fn tokens_declare_their_direction() {
    let offset = Pagination::Offset(OffsetPagination {
        offset: 0,
        limit: None,
        direction: PageDirection::Backward,
    });
    assert!(matches!(offset.direction(), PageDirection::Backward));
    let cursor = Pagination::Cursor(CursorPagination {
        cursor: None,
        limit: 10,
        direction: PageDirection::Forward,
    });
    assert!(matches!(cursor.direction(), PageDirection::Forward));
}

#[test]
fn oldest_github_page_starts_before_the_first_push() {
    let page = page_from_response(&response(
        vec![edge("b0", "a0"), edge("b1", "a1")],
        false,
        None,
    ));
    assert_eq!(page.items, strings(&["b0", "a0", "a1"]));
    assert!(matches!(page.direction, PageDirection::Backward));
    assert!(page.next.is_none());
}

#[test]
fn continued_github_page_carries_a_cursor_token() {
    let page = page_from_response(&response(
        vec![edge("b0", "a0"), edge("b1", "a1")],
        true,
        Some("cur"),
    ));
    assert_eq!(page.items, strings(&["a0", "a1"]));
    match page.next {
        Some(Pagination::Cursor(c)) => {
            assert_eq!(c.cursor.as_deref(), Some("cur"));
            assert_eq!(c.limit, 2);
            assert!(matches!(c.direction, PageDirection::Backward));
        }
        other => panic!("unexpected token: {:?}", other),
    }
}

#[test]
fn github_requests_demand_cursor_tokens() {
    let (cursor, limit) = cursor_params(None).expect("no token starts at the newest entries");
    assert!(cursor.is_none());
    assert_eq!(limit, DEFAULT_PAGE_SIZE);

    let token = Pagination::Cursor(CursorPagination {
        cursor: Some("c".to_string()),
        limit: 7,
        direction: PageDirection::Backward,
    });
    let (cursor, limit) = cursor_params(Some(&token)).expect("cursor tokens continue");
    assert_eq!(cursor.as_deref(), Some("c"));
    assert_eq!(limit, 7);

    let token = Pagination::Offset(OffsetPagination {
        offset: 3,
        limit: None,
        direction: PageDirection::Backward,
    });
    match cursor_params(Some(&token)) {
        Err(CustomError::ProcessError(m)) => {
            assert_eq!(m, "cursor based pagination is required for github");
        }
        other => panic!("unexpected result: {:?}", other),
    }
}

#[test]
fn github_targets_come_from_pull_request_paths() {
    let t = github_target(&strings(&["octo", "cat", "pull", "42", "files"]))
        .expect("a pull-request path has a target");
    assert_eq!((t.owner.as_str(), t.repo.as_str(), t.pr_id), ("octo", "cat", 42));
    assert!(matches!(
        github_target(&strings(&["octo", "cat", "issues", "42"])),
        Err(CustomError::UrlError)
    ));
    assert!(matches!(
        github_target(&strings(&["octo", "cat", "pull", "4x"])),
        Err(CustomError::UrlError)
    ));
    assert!(matches!(github_target(&strings(&["octo", "cat"])), Err(CustomError::UrlError)));
}

#[test]
fn oldest_bitbucket_page_reverses_the_feed() {
    // The feed lists the newest rescope first; the history page walks the
    // head hashes oldest first, starting before the oldest rescope.
    let feed = activity(
        vec![rescope("f2", "p2"), PrActivityEntry::Unknown, rescope("f1", "p1")],
        true,
        0,
        Some(25),
    );
    let page = page_from_activity(&feed);
    assert_eq!(page.items, strings(&["p1", "f1", "f2"]));
    assert!(matches!(page.direction, PageDirection::Backward));
    assert!(page.next.is_none());
}

#[test]
fn continued_bitbucket_page_carries_an_offset_token() {
    let feed = activity(vec![rescope("f2", "p2"), rescope("f1", "p1")], false, 50, Some(25));
    let page = page_from_activity(&feed);
    assert_eq!(page.items, strings(&["f1", "f2"]));
    match page.next {
        Some(Pagination::Offset(o)) => {
            assert_eq!(o.offset, 75);
            assert_eq!(o.limit, Some(25));
            assert!(matches!(o.direction, PageDirection::Backward));
        }
        other => panic!("unexpected token: {:?}", other),
    }

    // Without a declared limit the next offset steps past the entry count.
    let feed = activity(vec![rescope("f2", "p2"), rescope("f1", "p1")], false, 10, None);
    let page = page_from_activity(&feed);
    match page.next {
        Some(Pagination::Offset(o)) => assert_eq!(o.offset, 12),
        other => panic!("unexpected token: {:?}", other),
    }
}

#[test]
fn bitbucket_requests_demand_offset_tokens() {
    let (offset, limit) = offset_params(None).expect("no token starts at the head");
    assert_eq!((offset, limit), (0, None));

    let token = Pagination::Offset(OffsetPagination {
        offset: 30,
        limit: Some(10),
        direction: PageDirection::Backward,
    });
    let (offset, limit) = offset_params(Some(&token)).expect("offset tokens continue");
    assert_eq!((offset, limit), (30, Some(10)));

    let token = Pagination::Cursor(CursorPagination {
        cursor: None,
        limit: 5,
        direction: PageDirection::Backward,
    });
    match offset_params(Some(&token)) {
        Err(CustomError::ProcessError(m)) => {
            assert_eq!(m, "offset based pagination is required for bitbucket");
        }
        other => panic!("unexpected result: {:?}", other),
    }
}

#[test]
fn bitbucket_targets_come_from_pull_request_paths() {
    let t = bitbucket_target(&strings(&[
        "projects",
        "PRJ",
        "repos",
        "thing",
        "pull-requests",
        "9",
        "overview",
    ]))
    .expect("a pull-request path has a target");
    assert_eq!((t.project.as_str(), t.repo.as_str(), t.pr_id.as_str()), ("PRJ", "thing", "9"));
    assert!(matches!(
        bitbucket_target(&strings(&["projects", "PRJ", "repos", "thing"])),
        Err(CustomError::UrlError)
    ));
    assert!(matches!(
        bitbucket_target(&strings(&["users", "PRJ", "repos", "thing", "pull-requests", "9"])),
        Err(CustomError::UrlError)
    ));
}

#[test]
fn two_literal_endpoints_select_the_trivial_fetcher() {
    let selection = get_pr_fetcher(None, Some("a".to_string()), Some("b".to_string()))
        .expect("literal endpoints always work");
    match selection {
        Some(FetcherSelection::Literal(nf)) => {
            assert_eq!((nf.from.as_str(), nf.to.as_str()), ("a", "b"));
        }
        other => panic!("unexpected selection: {:?}", other),
    }
    assert!(get_pr_fetcher(None, Some("a".to_string()), None).unwrap().is_none());
    assert!(get_pr_fetcher(None, None, None).unwrap().is_none());
}

#[test]
fn github_urls_select_the_github_fetcher() {
    let selection = get_pr_fetcher(
        Some("https://github.com/octo/cat/pull/12/files".to_string()),
        None,
        None,
    )
    .expect("a well-formed pull-request URL selects a fetcher");
    match selection {
        Some(FetcherSelection::Github(t)) => {
            assert_eq!((t.owner.as_str(), t.repo.as_str(), t.pr_id), ("octo", "cat", 12));
        }
        other => panic!("unexpected selection: {:?}", other),
    }
    assert!(matches!(
        get_pr_fetcher(Some("https://github.com/octo/cat/issues/12".to_string()), None, None),
        Err(CustomError::UrlError)
    ));
}

#[test]
fn bitbucket_urls_select_the_bitbucket_fetcher() {
    let selection = get_pr_fetcher(
        Some("https://bitbucket.example.com/projects/PRJ/repos/thing/pull-requests/9/overview"
            .to_string()),
        None,
        None,
    )
    .expect("a well-formed pull-request URL selects a fetcher");
    match selection {
        Some(FetcherSelection::Bitbucket(t)) => {
            assert_eq!(
                (t.project.as_str(), t.repo.as_str(), t.pr_id.as_str()),
                ("PRJ", "thing", "9")
            );
        }
        other => panic!("unexpected selection: {:?}", other),
    }
}

#[test]
fn other_urls_select_no_fetcher_and_bad_urls_fail() {
    assert!(get_pr_fetcher(Some("https://example.com/a/b".to_string()), None, None)
        .unwrap()
        .is_none());
    assert!(matches!(
        get_pr_fetcher(Some("not a url at all".to_string()), None, None),
        Err(CustomError::UrlError)
    ));
}

#[test]
fn decimal_parsing_matches_number_literals() {
    assert_eq!(parse_usize("0"), Some(0));
    assert_eq!(parse_usize("42"), Some(42));
    assert_eq!(parse_usize("+7"), Some(7));
    assert_eq!(parse_usize(""), None);
    assert_eq!(parse_usize("+"), None);
    assert_eq!(parse_usize("12a"), None);
    assert_eq!(parse_usize("-3"), None);
    let max = usize::MAX.to_string();
    assert_eq!(parse_usize(&max), Some(usize::MAX));
    let too_big = format!("{}0", max);
    assert_eq!(parse_usize(&too_big), None);
}

#[test]
fn text_search_and_equality_work_by_characters() {
    assert!(str_eq("abc", "abc"));
    assert!(!str_eq("abc", "abd"));
    assert!(!str_eq("abc", "ab"));
    assert!(has_substring("api.github.com", "github.com"));
    assert!(has_substring("github.com", "github.com"));
    assert!(!has_substring("gitlab.com", "github.com"));
    assert!(has_substring("anything", ""));
}

#[test]
fn error_messages_name_their_kind() {
    assert_eq!(CustomError::RepoError.message(), "Repo Error");
    assert_eq!(CustomError::ExprError.message(), "Expr Error");
    assert_eq!(CustomError::ConfigError.message(), "Config Error");
    assert_eq!(CustomError::CommitError("x".to_string()).message(), "Commit Error: x");
    assert_eq!(CustomError::ProcessError("y".to_string()).message(), "Process error: y");
    assert_eq!(CustomError::RequestError.message(), "Request Error");
    assert_eq!(CustomError::UrlError.message(), "Url Error");
}

#[test]
fn pages_carry_their_items_unchanged() {
    let page: Page<String> = Page {
        items: strings(&["x"]),
        direction: PageDirection::Forward,
        next: None,
    };
    assert_eq!(page.items, strings(&["x"]));
    assert!(matches!(page.direction, PageDirection::Forward));
}
