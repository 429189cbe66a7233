//! The reconciliation engine: aligns two independently evolved commit
//! sequences into one ordered list of correspondences, matching commits by
//! their rewrite-stable alignment identity even when they were rewritten,
//! reordered, added or removed.
use vstd::prelude::*;

verus! {

/// The commit identity and subject shown for one side of a correspondence.
#[derive(Debug)]
pub struct CommitMeta {
    /// Content hash of the commit, globally unique.
    pub sha: String,
    /// Human-readable commit message.
    pub message: String,
}

impl Clone for CommitMeta {
    fn clone(&self) -> (r: Self)
        ensures
            r == *self,
    {
        CommitMeta { sha: self.sha.clone(), message: self.message.clone() }
    }
}

/// Change statistics of one correspondence; all zero until the external
/// diffing collaborator has supplied them.
#[derive(Debug, Copy, Clone, PartialEq, Eq, Structural)]
pub struct DiffStats {
    pub additions: usize,
    pub removals: usize,
    pub changed_files: usize,
}

/// The all-zero statistics value.
pub open spec fn zero_stats() -> DiffStats {
    DiffStats { additions: 0, removals: 0, changed_files: 0 }
}

impl Default for DiffStats {
    fn default() -> (r: Self)
        ensures
            r == zero_stats(),
    {
        DiffStats { additions: 0, removals: 0, changed_files: 0 }
    }
}

/// One row of the aligned comparison. At least one side is present.
#[derive(Debug)]
pub struct CommitDiff {
    /// Occurrence of the change on the `from` side, if any.
    pub from: Option<CommitMeta>,
    /// Occurrence of the change on the `to` side, if any.
    pub to: Option<CommitMeta>,
    /// Change statistics for this row.
    pub stats: DiffStats,
}

/// Whether a row represents a visible change: always for one-sided rows;
/// for matched rows only when files changed and the hashes differ.
pub open spec fn spec_has_changes(d: CommitDiff) -> bool {
    match (d.from, d.to) {
        (Option::None, Option::Some(_)) => true,
        (Option::Some(_), Option::None) => true,
        (Option::Some(f), Option::Some(t)) => d.stats.changed_files > 0 && f.sha@ != t.sha@,
        (Option::None, Option::None) => false,
    }
}

impl CommitDiff {
    /// At least one side of the row is present.
    pub open spec fn wf(&self) -> bool {
        self.from is Some || self.to is Some
    }

    /// Whether this row should be shown when unchanged rows are hidden.
    pub fn has_changes(&self) -> (r: bool)
        ensures
            r == spec_has_changes(*self),
    {
        match (&self.from, &self.to) {
            (Option::None, Option::Some(_)) => true,
            (Option::Some(_), Option::None) => true,
            (Option::Some(f), Option::Some(t)) => self.stats.changed_files > 0 && !(f.sha
                == t.sha),
            (Option::None, Option::None) => false,
        }
    }
}

impl Clone for CommitDiff {
    fn clone(&self) -> (r: Self)
        ensures
            r == *self,
    {
        let from = match &self.from {
            Option::None => Option::None,
            Option::Some(m) => Option::Some(m.clone()),
        };
        let to = match &self.to {
            Option::None => Option::None,
            Option::Some(m) => Option::Some(m.clone()),
        };
        CommitDiff { from, to, stats: self.stats }
    }
}

/// The alignment identity of a commit: the rewrite-stable change identifier
/// when available, else a best-effort composite of author metadata, which
/// does not change across rewrites.
#[derive(Debug)]
pub enum DiffSource {
    /// Rewrite-tracking logical identifier, preferred.
    ChangeId(String),
    /// Fallback when no change identifier is available.
    Meta {
        author_name: String,
        author_email: String,
        author_timestamp: i64,
    },
}

impl Clone for DiffSource {
    fn clone(&self) -> (r: Self)
        ensures
            r == *self,
    {
        match self {
            DiffSource::ChangeId(id) => DiffSource::ChangeId(id.clone()),
            DiffSource::Meta { author_name, author_email, author_timestamp } => DiffSource::Meta {
                author_name: author_name.clone(),
                author_email: author_email.clone(),
                author_timestamp: *author_timestamp,
            },
        }
    }
}

/// Structural equality of alignment identities, over the text of the fields.
/// Two commits with equal [`DiffSource`] are the same logical change.
pub open spec fn src_eq(a: DiffSource, b: DiffSource) -> bool {
    match (a, b) {
        (DiffSource::ChangeId(x), DiffSource::ChangeId(y)) => x@ == y@,
        (
            DiffSource::Meta { author_name: n1, author_email: e1, author_timestamp: t1 },
            DiffSource::Meta { author_name: n2, author_email: e2, author_timestamp: t2 },
        ) => n1@ == n2@ && e1@ == e2@ && t1 == t2,
        _ => false,
    }
}

impl DiffSource {
    /// Build the alignment identity for a commit: prefer the rewrite-stable
    /// change identifier, fall back to author metadata when none exists.
    pub fn select(
        change_id: Option<String>,
        author_name: String,
        author_email: String,
        author_timestamp: i64,
    ) -> (r: DiffSource)
        ensures
            change_id matches Some(id) ==> r == DiffSource::ChangeId(id),
            change_id is None ==> r == (DiffSource::Meta {
                author_name,
                author_email,
                author_timestamp,
            }),
    {
        match change_id {
            Option::Some(id) => DiffSource::ChangeId(id),
            Option::None => DiffSource::Meta { author_name, author_email, author_timestamp },
        }
    }

    /// Whether `self` and `other` identify the same logical change.
    pub fn same_source(&self, other: &DiffSource) -> (r: bool)
        ensures
            r == src_eq(*self, *other),
    {
        match (self, other) {
            (DiffSource::ChangeId(x), DiffSource::ChangeId(y)) => *x == *y,
            (
                DiffSource::Meta { author_name: n1, author_email: e1, author_timestamp: t1 },
                DiffSource::Meta { author_name: n2, author_email: e2, author_timestamp: t2 },
            ) => *n1 == *n2 && *e1 == *e2 && *t1 == *t2,
            _ => false,
        }
    }
}

/// One commit of an input sequence: its displayed identity together with its
/// alignment identity, as supplied by the repository provider.
#[derive(Debug)]
pub struct CommitRecord {
    pub meta: CommitMeta,
    pub source: DiffSource,
}

impl Clone for CommitRecord {
    fn clone(&self) -> (r: Self)
        ensures
            r == *self,
    {
        CommitRecord { meta: self.meta.clone(), source: self.source.clone() }
    }
}

/// Row for a change present on both sides.
pub open spec fn match_entry(f: CommitRecord, t: CommitRecord) -> CommitDiff {
    CommitDiff { from: Some(f.meta), to: Some(t.meta), stats: zero_stats() }
}

/// Row for a change present only on the `from` side.
pub open spec fn from_only_entry(f: CommitRecord) -> CommitDiff {
    CommitDiff { from: Some(f.meta), to: None, stats: zero_stats() }
}

/// Row for a change present only on the `to` side.
pub open spec fn to_only_entry(t: CommitRecord) -> CommitDiff {
    CommitDiff { from: None, to: Some(t.meta), stats: zero_stats() }
}

/// Whether some commit of `s` has the alignment identity `src`.
pub open spec fn has_matching_source(s: Seq<CommitRecord>, src: DiffSource) -> bool {
    exists|k: int| 0 <= k < s.len() && src_eq(s[k].source, src)
}

/// The aligned correspondence list produced by the two-pointer greedy walk:
/// equal identities at the heads pair up; a head-of-`from` whose partner for
/// the head-of-`to` occurs later is emitted alone; otherwise the head of `to`
/// is a fresh insertion; a drained side empties the other in order.
pub open spec fn spec_reconcile(from: Seq<CommitRecord>, to: Seq<CommitRecord>) -> Seq<CommitDiff>
    decreases from.len() + to.len(),
{
    if from.len() > 0 && to.len() > 0 {
        if src_eq(from[0].source, to[0].source) {
            seq![match_entry(from[0], to[0])] + spec_reconcile(from.drop_first(), to.drop_first())
        } else if has_matching_source(from, to[0].source) {
            seq![from_only_entry(from[0])] + spec_reconcile(from.drop_first(), to)
        } else {
            seq![to_only_entry(to[0])] + spec_reconcile(from, to.drop_first())
        }
    } else if from.len() > 0 {
        seq![from_only_entry(from[0])] + spec_reconcile(from.drop_first(), to)
    } else if to.len() > 0 {
        seq![to_only_entry(to[0])] + spec_reconcile(from, to.drop_first())
    } else {
        Seq::empty()
    }
}

/// Whether any commit of `v` at or after `start` has identity `src`.
fn contains_source(v: &Vec<CommitRecord>, start: usize, src: &DiffSource) -> (r: bool)
    requires
        start <= v@.len(),
    ensures
        r == has_matching_source(v@.skip(start as int), *src),
{
    let mut k = start;
    while k < v.len()
        invariant
            start <= k <= v@.len(),
            forall|m: int| start <= m < k ==> !src_eq(v@[m].source, *src),
        decreases v@.len() - k,
    {
        if v[k].source.same_source(src) {
            proof {
                assert(v@.skip(start as int)[k - start] == v@[k as int]);
            }
            return true;
        }
        k = k + 1;
    }
    proof {
        assert forall|m: int| 0 <= m < v@.skip(start as int).len() implies !src_eq(
            v@.skip(start as int)[m].source,
            *src,
        ) by {
            assert(v@.skip(start as int)[m] == v@[start + m]);
        }
    }
    false
}

/// A sequence of well-formed rows behind one more well-formed row is
/// well-formed throughout.
proof fn lemma_cons_all_wf(s: Seq<CommitDiff>, e: CommitDiff, rest: Seq<CommitDiff>)
    requires
        s == seq![e] + rest,
        e.wf(),
        forall|k: int| 0 <= k < rest.len() ==> (#[trigger] rest[k]).wf(),
    ensures
        forall|k: int| 0 <= k < s.len() ==> (#[trigger] s[k]).wf(),
{
    assert forall|k: int| 0 <= k < s.len() implies (#[trigger] s[k]).wf() by {
        if k > 0 {
            assert(s[k] == rest[k - 1]);
        } else {
            assert(s[k] == e);
        }
    }
}

/// Every row of a reconciliation shows at least one side.
pub proof fn lemma_reconcile_rows_wf(from: Seq<CommitRecord>, to: Seq<CommitRecord>)
    ensures
        forall|k: int|
            0 <= k < spec_reconcile(from, to).len() ==> (#[trigger] spec_reconcile(from, to)[k]).wf(),
    decreases from.len() + to.len(),
{
    let s = spec_reconcile(from, to);
    if from.len() > 0 && to.len() > 0 {
        if src_eq(from[0].source, to[0].source) {
            lemma_reconcile_rows_wf(from.drop_first(), to.drop_first());
            lemma_cons_all_wf(
                s,
                match_entry(from[0], to[0]),
                spec_reconcile(from.drop_first(), to.drop_first()),
            );
        } else if has_matching_source(from, to[0].source) {
            lemma_reconcile_rows_wf(from.drop_first(), to);
            lemma_cons_all_wf(s, from_only_entry(from[0]), spec_reconcile(from.drop_first(), to));
        } else {
            lemma_reconcile_rows_wf(from, to.drop_first());
            lemma_cons_all_wf(s, to_only_entry(to[0]), spec_reconcile(from, to.drop_first()));
        }
    } else if from.len() > 0 {
        lemma_reconcile_rows_wf(from.drop_first(), to);
        lemma_cons_all_wf(s, from_only_entry(from[0]), spec_reconcile(from.drop_first(), to));
    } else if to.len() > 0 {
        lemma_reconcile_rows_wf(from, to.drop_first());
        lemma_cons_all_wf(s, to_only_entry(to[0]), spec_reconcile(from, to.drop_first()));
    }
}

/// Align the unique history of the `from` side against that of the `to`
/// side, both oldest first, into one chronologically coherent row list.
/// Every row shows at least one side. Statistics of every row are zero; the
/// caller attaches externally computed statistics with [`apply_stats`].
pub fn reconcile(from_commits: &Vec<CommitRecord>, to_commits: &Vec<CommitRecord>) -> (r: Vec<
    CommitDiff,
>)
    ensures
        r@ == spec_reconcile(from_commits@, to_commits@),
        forall|k: int| 0 <= k < r@.len() ==> (#[trigger] r@[k]).wf(),
{
    proof {
        lemma_reconcile_rows_wf(from_commits@, to_commits@);
    }
    let mut out: Vec<CommitDiff> = Vec::new();
    let mut i: usize = 0;
    let mut j: usize = 0;
    proof {
        assert(from_commits@.skip(0) =~= from_commits@);
        assert(to_commits@.skip(0) =~= to_commits@);
        assert(Seq::<CommitDiff>::empty() + spec_reconcile(from_commits@, to_commits@)
            =~= spec_reconcile(from_commits@, to_commits@));
    }
    while i < from_commits.len() || j < to_commits.len()
        invariant
            i <= from_commits@.len(),
            j <= to_commits@.len(),
            spec_reconcile(from_commits@, to_commits@) == out@ + spec_reconcile(
                from_commits@.skip(i as int),
                to_commits@.skip(j as int),
            ),
        decreases from_commits@.len() - i + to_commits@.len() - j,
    {
        let ghost rest_from = from_commits@.skip(i as int);
        let ghost rest_to = to_commits@.skip(j as int);
        if i < from_commits.len() && j < to_commits.len() {
            if from_commits[i].source.same_source(&to_commits[j].source) {
                let entry = CommitDiff {
                    from: Some(from_commits[i].meta.clone()),
                    to: Some(to_commits[j].meta.clone()),
                    stats: DiffStats::default(),
                };
                proof {
                    assert(rest_from[0] == from_commits@[i as int]);
                    assert(rest_to[0] == to_commits@[j as int]);
                    assert(rest_from.drop_first() =~= from_commits@.skip(i + 1));
                    assert(rest_to.drop_first() =~= to_commits@.skip(j + 1));
                    assert(out@.push(entry) + spec_reconcile(
                        from_commits@.skip(i + 1),
                        to_commits@.skip(j + 1),
                    ) =~= out@ + spec_reconcile(rest_from, rest_to));
                }
                out.push(entry);
                i = i + 1;
                j = j + 1;
            } else if contains_source(from_commits, i, &to_commits[j].source) {
                let entry = CommitDiff {
                    from: Some(from_commits[i].meta.clone()),
                    to: None,
                    stats: DiffStats::default(),
                };
                proof {
                    assert(rest_from[0] == from_commits@[i as int]);
                    assert(rest_to[0] == to_commits@[j as int]);
                    assert(rest_from.drop_first() =~= from_commits@.skip(i + 1));
                    assert(out@.push(entry) + spec_reconcile(
                        from_commits@.skip(i + 1),
                        rest_to,
                    ) =~= out@ + spec_reconcile(rest_from, rest_to));
                }
                out.push(entry);
                i = i + 1;
            } else {
                let entry = CommitDiff {
                    from: None,
                    to: Some(to_commits[j].meta.clone()),
                    stats: DiffStats::default(),
                };
                proof {
                    assert(rest_from[0] == from_commits@[i as int]);
                    assert(rest_to[0] == to_commits@[j as int]);
                    assert(rest_to.drop_first() =~= to_commits@.skip(j + 1));
                    assert(out@.push(entry) + spec_reconcile(
                        rest_from,
                        to_commits@.skip(j + 1),
                    ) =~= out@ + spec_reconcile(rest_from, rest_to));
                }
                out.push(entry);
                j = j + 1;
            }
        } else if i < from_commits.len() {
            let entry = CommitDiff {
                from: Some(from_commits[i].meta.clone()),
                to: None,
                stats: DiffStats::default(),
            };
            proof {
                assert(rest_from[0] == from_commits@[i as int]);
                assert(rest_from.drop_first() =~= from_commits@.skip(i + 1));
                assert(out@.push(entry) + spec_reconcile(from_commits@.skip(i + 1), rest_to)
                    =~= out@ + spec_reconcile(rest_from, rest_to));
            }
            out.push(entry);
            i = i + 1;
        } else {
            let entry = CommitDiff {
                from: None,
                to: Some(to_commits[j].meta.clone()),
                stats: DiffStats::default(),
            };
            proof {
                assert(rest_to[0] == to_commits@[j as int]);
                assert(rest_to.drop_first() =~= to_commits@.skip(j + 1));
                assert(out@.push(entry) + spec_reconcile(rest_from, to_commits@.skip(j + 1))
                    =~= out@ + spec_reconcile(rest_from, rest_to));
            }
            out.push(entry);
            j = j + 1;
        }
    }
    proof {
        assert(from_commits@.skip(i as int) =~= Seq::<CommitRecord>::empty());
        assert(to_commits@.skip(j as int) =~= Seq::<CommitRecord>::empty());
        assert(out@ + Seq::<CommitDiff>::empty() =~= out@);
    }
    out
}

/// Which externally computed diff a row's statistics come from.
#[derive(Debug)]
pub enum StatsSource {
    /// Full diff of one commit against its first parent.
    AgainstParent { sha: String },
    /// Diff between the two tree states, after re-parenting the `from` tree.
    BetweenTrees { from_sha: String, to_sha: String },
}

/// The statistics request for a row: a matched row with one sha is shown
/// against its own parent; a matched row with different shas as the diff of
/// the two trees; a one-sided row against its parent; an empty row has none.
pub open spec fn spec_stats_source(d: CommitDiff) -> Option<StatsSource> {
    match (d.from, d.to) {
        (Option::Some(f), Option::Some(t)) => if f.sha@ == t.sha@ {
            Some(StatsSource::AgainstParent { sha: t.sha })
        } else {
            Some(StatsSource::BetweenTrees { from_sha: f.sha, to_sha: t.sha })
        },
        (Option::Some(f), Option::None) => Some(StatsSource::AgainstParent { sha: f.sha }),
        (Option::None, Option::Some(t)) => Some(StatsSource::AgainstParent { sha: t.sha }),
        (Option::None, Option::None) => None,
    }
}

impl CommitDiff {
    /// Which external diff supplies this row's statistics.
    pub fn stats_source(&self) -> (r: Option<StatsSource>)
        ensures
            r == spec_stats_source(*self),
    {
        match (&self.from, &self.to) {
            (Option::Some(f), Option::Some(t)) => if f.sha == t.sha {
                Some(StatsSource::AgainstParent { sha: t.sha.clone() })
            } else {
                Some(
                    StatsSource::BetweenTrees {
                        from_sha: f.sha.clone(),
                        to_sha: t.sha.clone(),
                    },
                )
            },
            (Option::Some(f), Option::None) => Some(
                StatsSource::AgainstParent { sha: f.sha.clone() },
            ),
            (Option::None, Option::Some(t)) => Some(
                StatsSource::AgainstParent { sha: t.sha.clone() },
            ),
            (Option::None, Option::None) => None,
        }
    }
}

/// Attach externally computed statistics to an aligned row list, row by row.
pub fn apply_stats(diffs: &Vec<CommitDiff>, stats: &Vec<DiffStats>) -> (r: Vec<CommitDiff>)
    requires
        diffs@.len() == stats@.len(),
    ensures
        r@.len() == diffs@.len(),
        forall|k: int|
            #![trigger r@[k]]
            0 <= k < r@.len() ==> r@[k].from == diffs@[k].from && r@[k].to == diffs@[k].to
                && r@[k].stats == stats@[k],
{
    let mut r: Vec<CommitDiff> = Vec::new();
    let mut k: usize = 0;
    while k < diffs.len()
        invariant
            diffs@.len() == stats@.len(),
            k <= diffs@.len(),
            r@.len() == k,
            forall|m: int|
                #![trigger r@[m]]
                0 <= m < k ==> r@[m].from == diffs@[m].from && r@[m].to == diffs@[m].to
                    && r@[m].stats == stats@[m],
        decreases diffs@.len() - k,
    {
        let mut entry = diffs[k].clone();
        entry.stats = stats[k];
        r.push(entry);
        k = k + 1;
    }
    r
}

/// Every commit of `from` as a removal row, in order.
pub open spec fn all_from_entries(from: Seq<CommitRecord>) -> Seq<CommitDiff> {
    Seq::new(from.len(), |k: int| from_only_entry(from[k]))
}

/// Every commit of `to` as an insertion row, in order.
pub open spec fn all_to_entries(to: Seq<CommitRecord>) -> Seq<CommitDiff> {
    Seq::new(to.len(), |k: int| to_only_entry(to[k]))
}

/// When no alignment identity is shared between the two sides, every row is
/// one-sided and the greedy order holds: the insertions of `to` come first,
/// in order, then the removals of `from`, in order; the row count is the sum
/// of the two lengths.
pub proof fn lemma_reconcile_disjoint(from: Seq<CommitRecord>, to: Seq<CommitRecord>)
    requires
        forall|i: int, j: int|
            0 <= i < from.len() && 0 <= j < to.len() ==> !(#[trigger] src_eq(
                from[i].source,
                to[j].source,
            )),
    ensures
        spec_reconcile(from, to) == all_to_entries(to) + all_from_entries(from),
        spec_reconcile(from, to).len() == from.len() + to.len(),
    decreases from.len() + to.len(),
{
    if from.len() > 0 && to.len() > 0 {
        assert(!src_eq(from[0].source, to[0].source));
        assert(!has_matching_source(from, to[0].source)) by {
            assert forall|k: int| 0 <= k < from.len() implies !src_eq(
                from[k].source,
                to[0].source,
            ) by {}
        }
        assert forall|i: int, j: int|
            0 <= i < from.len() && 0 <= j < to.drop_first().len() implies !(#[trigger] src_eq(
            from[i].source,
            to.drop_first()[j].source,
        )) by {
            assert(to.drop_first()[j] == to[j + 1]);
        }
        lemma_reconcile_disjoint(from, to.drop_first());
        assert(spec_reconcile(from, to) =~= all_to_entries(to) + all_from_entries(from)) by {
            assert(all_to_entries(to.drop_first()) =~= all_to_entries(to).drop_first());
        }
    } else if from.len() > 0 {
        lemma_reconcile_disjoint(from.drop_first(), to);
        assert(spec_reconcile(from, to) =~= all_to_entries(to) + all_from_entries(from)) by {
            assert(all_from_entries(from.drop_first()) =~= all_from_entries(from).drop_first());
        }
    } else if to.len() > 0 {
        assert forall|i: int, j: int|
            0 <= i < from.len() && 0 <= j < to.drop_first().len() implies !(#[trigger] src_eq(
            from[i].source,
            to.drop_first()[j].source,
        )) by {}
        lemma_reconcile_disjoint(from, to.drop_first());
        assert(spec_reconcile(from, to) =~= all_to_entries(to) + all_from_entries(from)) by {
            assert(all_to_entries(to.drop_first()) =~= all_to_entries(to).drop_first());
        }
    } else {
        assert(spec_reconcile(from, to) =~= all_to_entries(to) + all_from_entries(from));
    }
}

/// Every commit of `s` matched with itself, in order.
pub open spec fn all_match_entries(s: Seq<CommitRecord>) -> Seq<CommitDiff> {
    Seq::new(s.len(), |k: int| match_entry(s[k], s[k]))
}

/// Reconciling a sequence with itself pairs every commit with itself, in
/// order; every row carries zero statistics and shows no change.
pub proof fn lemma_reconcile_identical(s: Seq<CommitRecord>)
    ensures
        spec_reconcile(s, s) == all_match_entries(s),
        forall|k: int|
            #![trigger all_match_entries(s)[k]]
            0 <= k < s.len() ==> !spec_has_changes(all_match_entries(s)[k])
                && all_match_entries(s)[k].stats == zero_stats(),
    decreases s.len(),
{
    if s.len() > 0 {
        assert(src_eq(s[0].source, s[0].source));
        lemma_reconcile_identical(s.drop_first());
        assert(spec_reconcile(s, s) =~= all_match_entries(s)) by {
            assert(all_match_entries(s.drop_first()) =~= all_match_entries(s).drop_first());
        }
    } else {
        assert(spec_reconcile(s, s) =~= all_match_entries(s));
    }
}

/// The correspondence list is a function of the two input sequences alone:
/// reconciling the same inputs twice yields identical contents.
pub proof fn lemma_reconcile_deterministic(
    from: Seq<CommitRecord>,
    to: Seq<CommitRecord>,
    r1: Seq<CommitDiff>,
    r2: Seq<CommitDiff>,
)
    requires
        r1 == spec_reconcile(from, to),
        r2 == spec_reconcile(from, to),
    ensures
        r1 == r2,
{
}

} // verus!
