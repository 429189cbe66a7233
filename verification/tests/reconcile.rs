use diffsoup::diff::{
    apply_stats, reconcile, CommitDiff, CommitMeta, CommitRecord, DiffSource, DiffStats,
    StatsSource,
};
use diffsoup::trees::DiffTree;

fn meta(sha: &str, message: &str) -> CommitMeta {
    CommitMeta { sha: sha.to_string(), message: message.to_string() }
}

fn rec(sha: &str, change_id: &str) -> CommitRecord {
    CommitRecord {
        meta: meta(sha, sha),
        source: DiffSource::ChangeId(change_id.to_string()),
    }
}

fn sha_of(side: &Option<CommitMeta>) -> Option<&str> {
    side.as_ref().map(|m| m.sha.as_str())
}

fn assert_row(row: &CommitDiff, from: Option<&str>, to: Option<&str>) {
    assert_eq!(sha_of(&row.from), from);
    assert_eq!(sha_of(&row.to), to);
}

#[test]
fn disjoint_sides_interleave_greedily() {
    // No shared identity: every `to` commit is an insertion and is emitted
    // first, then every `from` commit as a removal, both in input order.
    let from = vec![rec("x", "cx"), rec("y", "cy")];
    let to = vec![rec("p", "cp"), rec("q", "cq")];
    let rows = reconcile(&from, &to);
    assert_eq!(rows.len(), 4);
    assert_row(&rows[0], None, Some("p"));
    assert_row(&rows[1], None, Some("q"));
    assert_row(&rows[2], Some("x"), None);
    assert_row(&rows[3], Some("y"), None);
    for row in &rows {
        assert!(row.from.is_none() || row.to.is_none());
        assert!(row.has_changes());
    }
}

#[test]
fn identical_sides_match_pairwise() {
    let from = vec![rec("a", "ca"), rec("b", "cb"), rec("c", "cc")];
    let to = vec![rec("a", "ca"), rec("b", "cb"), rec("c", "cc")];
    let rows = reconcile(&from, &to);
    assert_eq!(rows.len(), 3);
    for (i, row) in rows.iter().enumerate() {
        let sha = from[i].meta.sha.as_str();
        assert_row(row, Some(sha), Some(sha));
        assert_eq!(row.stats, DiffStats::default());
        assert!(!row.has_changes());
    }
}

#[test]
fn reconcile_twice_gives_identical_contents() {
    let from = vec![rec("a", "ca"), rec("b", "cb")];
    let to = vec![rec("b2", "cb"), rec("n", "cn")];
    let first = reconcile(&from, &to);
    let second = reconcile(&from, &to);
    assert_eq!(first.len(), second.len());
    for (x, y) in first.iter().zip(second.iter()) {
        assert_eq!(sha_of(&x.from), sha_of(&y.from));
        assert_eq!(sha_of(&x.to), sha_of(&y.to));
        assert_eq!(x.stats, y.stats);
    }
}

#[test]
fn rewritten_commit_still_matches() {
    // from = [A(shared), B(shared)], to = [A(shared), B'(rewritten, same
    // identity as B)]: two matches; the second differs in hash.
    let from = vec![rec("a1", "ca"), rec("b1", "cb")];
    let to = vec![rec("a1", "ca"), rec("b2", "cb")];
    let rows = reconcile(&from, &to);
    assert_eq!(rows.len(), 2);
    assert_row(&rows[0], Some("a1"), Some("a1"));
    assert_row(&rows[1], Some("b1"), Some("b2"));

    // With non-zero stats attached, only the rewritten pair shows a change.
    let stats = vec![
        DiffStats { additions: 1, removals: 0, changed_files: 1 },
        DiffStats { additions: 2, removals: 1, changed_files: 1 },
    ];
    let rows = apply_stats(&rows, &stats);
    assert!(!rows[0].has_changes());
    assert!(rows[1].has_changes());
}

#[test]
fn removed_commit_is_emitted_before_its_successor() {
    // from = [A, B], to = [B]: A was removed, B is unchanged.
    let from = vec![rec("a", "ca"), rec("b", "cb")];
    let to = vec![rec("b", "cb")];
    let rows = reconcile(&from, &to);
    assert_eq!(rows.len(), 2);
    assert_row(&rows[0], Some("a"), None);
    assert_row(&rows[1], Some("b"), Some("b"));
}

#[test]
fn empty_to_side_lists_all_removals_in_order() {
    let from = vec![rec("a", "ca"), rec("b", "cb"), rec("c", "cc")];
    let to = vec![];
    let rows = reconcile(&from, &to);
    assert_eq!(rows.len(), 3);
    assert_row(&rows[0], Some("a"), None);
    assert_row(&rows[1], Some("b"), None);
    assert_row(&rows[2], Some("c"), None);
    for row in &rows {
        assert!(row.has_changes());
    }
}

#[test]
fn empty_from_side_lists_all_insertions_in_order() {
    let rows = reconcile(&vec![], &vec![rec("p", "cp"), rec("q", "cq")]);
    assert_eq!(rows.len(), 2);
    assert_row(&rows[0], None, Some("p"));
    assert_row(&rows[1], None, Some("q"));
}

#[test]
fn both_sides_empty_give_no_rows() {
    assert!(reconcile(&vec![], &vec![]).is_empty());
}

#[test]
fn reordered_commit_is_removed_then_matched() {
    // from = [A, B], to = [B', A']: the lookahead sees B later in `from`, so
    // A is emitted alone first, B matches, and A' arrives as an insertion.
    let from = vec![rec("a1", "ca"), rec("b1", "cb")];
    let to = vec![rec("b2", "cb"), rec("a2", "ca")];
    let rows = reconcile(&from, &to);
    assert_eq!(rows.len(), 3);
    assert_row(&rows[0], Some("a1"), None);
    assert_row(&rows[1], Some("b1"), Some("b2"));
    assert_row(&rows[2], None, Some("a2"));
}

#[test]
fn duplicate_identity_matches_first_occurrence() {
    // A metadata collision within one side is permitted; the first occurrence
    // pairs up and the second is emitted alone.
    let from = vec![rec("a1", "dup"), rec("a2", "dup")];
    let to = vec![rec("a3", "dup")];
    let rows = reconcile(&from, &to);
    assert_eq!(rows.len(), 2);
    assert_row(&rows[0], Some("a1"), Some("a3"));
    assert_row(&rows[1], Some("a2"), None);
}

#[test]
fn fallback_metadata_identity_matches_across_hashes() {
    let source = |ts: i64| DiffSource::Meta {
        author_name: "ada".to_string(),
        author_email: "ada@example.com".to_string(),
        author_timestamp: ts,
    };
    let from = vec![CommitRecord { meta: meta("old", "m"), source: source(7) }];
    let to = vec![CommitRecord { meta: meta("new", "m"), source: source(7) }];
    let rows = reconcile(&from, &to);
    assert_eq!(rows.len(), 1);
    assert_row(&rows[0], Some("old"), Some("new"));

    // A different timestamp is a different identity.
    let to = vec![CommitRecord { meta: meta("new", "m"), source: source(8) }];
    let rows = reconcile(&from, &to);
    assert_eq!(rows.len(), 2);
}

#[test]
fn select_prefers_change_id_over_metadata() {
    let s = DiffSource::select(
        Some("chg".to_string()),
        "ada".to_string(),
        "ada@example.com".to_string(),
        1,
    );
    assert!(matches!(s, DiffSource::ChangeId(ref id) if id == "chg"));
    let s = DiffSource::select(None, "ada".to_string(), "ada@example.com".to_string(), 1);
    assert!(matches!(s, DiffSource::Meta { ref author_name, .. } if author_name == "ada"));
}

#[test]
fn has_changes_on_matched_rows_needs_changed_files_and_new_hash() {
    let zero = DiffStats::default();
    let touched = DiffStats { additions: 0, removals: 0, changed_files: 2 };
    let same = CommitDiff { from: Some(meta("s", "m")), to: Some(meta("s", "m")), stats: touched };
    assert!(!same.has_changes());
    let quiet = CommitDiff { from: Some(meta("s", "m")), to: Some(meta("t", "m")), stats: zero };
    assert!(!quiet.has_changes());
    let real = CommitDiff { from: Some(meta("s", "m")), to: Some(meta("t", "m")), stats: touched };
    assert!(real.has_changes());
    let one_sided = CommitDiff { from: None, to: Some(meta("t", "m")), stats: zero };
    assert!(one_sided.has_changes());
    let hollow = CommitDiff { from: None, to: None, stats: touched };
    assert!(!hollow.has_changes());
}

#[test]
fn stats_source_picks_the_right_external_diff() {
    let zero = DiffStats::default();
    let same = CommitDiff { from: Some(meta("s", "m")), to: Some(meta("s", "m")), stats: zero };
    assert!(matches!(
        same.stats_source(),
        Some(StatsSource::AgainstParent { ref sha }) if sha == "s"
    ));
    let pair = CommitDiff { from: Some(meta("s", "m")), to: Some(meta("t", "m")), stats: zero };
    assert!(matches!(
        pair.stats_source(),
        Some(StatsSource::BetweenTrees { ref from_sha, ref to_sha })
            if from_sha == "s" && to_sha == "t"
    ));
    let gone = CommitDiff { from: Some(meta("s", "m")), to: None, stats: zero };
    assert!(matches!(
        gone.stats_source(),
        Some(StatsSource::AgainstParent { ref sha }) if sha == "s"
    ));
    let fresh = CommitDiff { from: None, to: Some(meta("t", "m")), stats: zero };
    assert!(matches!(
        fresh.stats_source(),
        Some(StatsSource::AgainstParent { ref sha }) if sha == "t"
    ));
    let hollow = CommitDiff { from: None, to: None, stats: zero };
    assert!(hollow.stats_source().is_none());
}

#[test]
fn apply_stats_keeps_rows_and_replaces_statistics() {
    let rows = vec![
        CommitDiff { from: Some(meta("a", "m")), to: None, stats: DiffStats::default() },
        CommitDiff { from: None, to: Some(meta("b", "m")), stats: DiffStats::default() },
    ];
    let stats = vec![
        DiffStats { additions: 3, removals: 1, changed_files: 2 },
        DiffStats { additions: 0, removals: 5, changed_files: 1 },
    ];
    let out = apply_stats(&rows, &stats);
    assert_eq!(out.len(), 2);
    assert_row(&out[0], Some("a"), None);
    assert_row(&out[1], None, Some("b"));
    assert_eq!(out[0].stats, stats[0]);
    assert_eq!(out[1].stats, stats[1]);
}

#[test]
fn tree_plan_follows_the_sides() {
    let plan = DiffTree::from(&Some("s".to_string()), &Some("s".to_string()));
    assert!(matches!(plan, Some(DiffTree::AddedCommit { ref commit }) if commit == "s"));
    let plan = DiffTree::from(&Some("s".to_string()), &Some("t".to_string()));
    assert!(matches!(
        plan,
        Some(DiffTree::Interdiff { ref from, ref to }) if from == "s" && to == "t"
    ));
    let plan = DiffTree::from(&Some("s".to_string()), &None);
    assert!(matches!(plan, Some(DiffTree::RemovedCommit { ref commit }) if commit == "s"));
    let plan = DiffTree::from(&None, &Some("t".to_string()));
    assert!(matches!(plan, Some(DiffTree::AddedCommit { ref commit }) if commit == "t"));
    assert!(DiffTree::from(&None, &None).is_none());
}
