//! Which tree comparison the external renderer should show for one row of
//! the aligned list, decided from the commit hashes present on each side.
use vstd::prelude::*;

verus! {

/// The tree comparison backing one interdiff screen.
#[derive(Debug)]
pub enum DiffTree {
    /// Two versions of the same logical change with different content.
    Interdiff { from: String, to: String },
    /// A commit present only on the `to` side, or unchanged across sides,
    /// shown against its own parent.
    AddedCommit { commit: String },
    /// A commit present only on the `from` side, shown as removed.
    RemovedCommit { commit: String },
}

/// The comparison for a pair of optional hashes: both equal or only `to`
/// show one commit; both different show the interdiff; only `from` shows a
/// removal; neither shows nothing.
pub open spec fn spec_tree_plan(from: Option<String>, to: Option<String>) -> Option<DiffTree> {
    match (from, to) {
        (Option::Some(f), Option::Some(t)) => if f@ == t@ {
            Some(DiffTree::AddedCommit { commit: t })
        } else {
            Some(DiffTree::Interdiff { from: f, to: t })
        },
        (Option::Some(f), Option::None) => Some(DiffTree::RemovedCommit { commit: f }),
        (Option::None, Option::Some(t)) => Some(DiffTree::AddedCommit { commit: t }),
        (Option::None, Option::None) => None,
    }
}

impl DiffTree {
    /// Decide the comparison for the hashes present on the two sides.
    pub fn from(from: &Option<String>, to: &Option<String>) -> (r: Option<DiffTree>)
        ensures
            r == spec_tree_plan(*from, *to),
    {
        match (from, to) {
            (Option::Some(f), Option::Some(t)) => {
                if *f == *t {
                    Some(DiffTree::AddedCommit { commit: t.clone() })
                } else {
                    Some(DiffTree::Interdiff { from: f.clone(), to: t.clone() })
                }
            },
            (Option::Some(f), Option::None) => Some(DiffTree::RemovedCommit { commit: f.clone() }),
            (Option::None, Option::Some(t)) => Some(DiffTree::AddedCommit { commit: t.clone() }),
            (Option::None, Option::None) => None,
        }
    }
}

} // verus!
