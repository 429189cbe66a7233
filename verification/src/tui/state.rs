//! The view state machine: one controller-owned state value, advanced by
//! tagged worker responses and user events, with stale responses discarded
//! and the commit directory grown without disturbing the visible comparison.
use vstd::prelude::*;

use crate::diff::{spec_has_changes, CommitDiff, CommitMeta};
use crate::pr::{Page, PageDirection, Pagination};
use crate::text::count_lines;
use crate::text::spec_line_count;
use crate::tui::worker::{WorkerMsg, WorkerRequest, WorkerResponse};
use crate::tui::JobId;

verus! {

/// The rows a list screen shows when unchanged rows are hidden.
pub open spec fn changed_pred() -> spec_fn(CommitDiff) -> bool {
    |c: CommitDiff| spec_has_changes(c)
}

/// The rows a list screen shows: all of them, or only the changed ones.
pub open spec fn spec_visible(commits: Seq<CommitDiff>, show_unchanged: bool) -> Seq<CommitDiff> {
    if show_unchanged {
        commits
    } else {
        commits.filter(changed_pred())
    }
}

/// The list screen: the aligned rows and the position of the comparison they
/// belong to.
#[derive(Debug)]
pub struct ListView {
    pub commits: Vec<CommitDiff>,
    pub selected: usize,
    pub show_unchanged: bool,
    pub base_name: String,
    pub base_index: usize,
    pub comparison_name: String,
    pub comparison_index: usize,
    pub total_commits: usize,
}

impl ListView {
    /// The rows to display, per the unchanged-rows toggle.
    pub fn get_visible_commits(&self) -> (r: Vec<CommitDiff>)
        ensures
            r@ == spec_visible(self.commits@, self.show_unchanged),
    {
        let mut r: Vec<CommitDiff> = Vec::new();
        let mut i: usize = 0;
        proof {
            reveal(Seq::filter);
            assert(self.commits@.take(0) =~= Seq::<CommitDiff>::empty());
        }
        while i < self.commits.len()
            invariant
                i <= self.commits@.len(),
                self.show_unchanged ==> r@ == self.commits@.take(i as int),
                !self.show_unchanged ==> r@ == self.commits@.take(i as int).filter(changed_pred()),
            decreases self.commits@.len() - i,
        {
            proof {
                reveal(Seq::filter);
                assert(self.commits@.take(i + 1).drop_last() =~= self.commits@.take(i as int));
                assert(self.commits@.take(i + 1).last() == self.commits@[i as int]);
                assert(self.commits@.take(i + 1).filter(changed_pred()) == (if spec_has_changes(
                    self.commits@[i as int],
                ) {
                    self.commits@.take(i as int).filter(changed_pred()).push(
                        self.commits@[i as int],
                    )
                } else {
                    self.commits@.take(i as int).filter(changed_pred())
                }));
            }
            if self.show_unchanged {
                r.push(self.commits[i].clone());
            } else if self.commits[i].has_changes() {
                r.push(self.commits[i].clone());
            }
            i = i + 1;
        }
        proof {
            assert(self.commits@.take(self.commits@.len() as int) =~= self.commits@);
        }
        r
    }
}

/// One step of adjusting which two commits the list screen compares.
#[derive(Debug, Clone, Copy)]
pub enum PatchsetAdjust {
    BaseBack,
    BaseForward,
    ComparisonBack,
    ComparisonForward,
    BothBack,
    BothForward,
}

impl ListView {
    /// The directory indices one adjustment step moves the comparison to:
    /// the base moves between zero and the comparison, the comparison
    /// between the base and the end of the directory, and both move
    /// together within the directory. A step against a bound moves nothing.
    pub open spec fn spec_adjusted(&self, adjust: PatchsetAdjust) -> Option<(usize, usize)> {
        match adjust {
            PatchsetAdjust::BaseBack => if self.base_index > 0 {
                Some((((self.base_index - 1) as usize), self.comparison_index))
            } else {
                None
            },
            PatchsetAdjust::BaseForward => if self.base_index < self.comparison_index {
                Some((((self.base_index + 1) as usize), self.comparison_index))
            } else {
                None
            },
            PatchsetAdjust::ComparisonBack => if self.comparison_index > self.base_index {
                Some((self.base_index, ((self.comparison_index - 1) as usize)))
            } else {
                None
            },
            PatchsetAdjust::ComparisonForward => if self.comparison_index + 1
                < self.total_commits {
                Some((self.base_index, ((self.comparison_index + 1) as usize)))
            } else {
                None
            },
            PatchsetAdjust::BothBack => if self.base_index > 0 && self.comparison_index > 0 {
                Some((((self.base_index - 1) as usize), ((self.comparison_index - 1) as usize)))
            } else {
                None
            },
            PatchsetAdjust::BothForward => if self.base_index + 1 < self.total_commits
                && self.comparison_index + 1 < self.total_commits {
                Some((((self.base_index + 1) as usize), ((self.comparison_index + 1) as usize)))
            } else {
                None
            },
        }
    }

    /// Compute where one adjustment step moves the comparison, if anywhere.
    pub fn adjusted(&self, adjust: PatchsetAdjust) -> (r: Option<(usize, usize)>)
        ensures
            r == self.spec_adjusted(adjust),
    {
        match adjust {
            PatchsetAdjust::BaseBack => if self.base_index > 0 {
                Some((self.base_index - 1, self.comparison_index))
            } else {
                None
            },
            PatchsetAdjust::BaseForward => if self.base_index < self.comparison_index {
                Some((self.base_index + 1, self.comparison_index))
            } else {
                None
            },
            PatchsetAdjust::ComparisonBack => if self.comparison_index > self.base_index {
                Some((self.base_index, self.comparison_index - 1))
            } else {
                None
            },
            PatchsetAdjust::ComparisonForward => if self.comparison_index < usize::MAX
                && self.comparison_index + 1 < self.total_commits {
                Some((self.base_index, self.comparison_index + 1))
            } else {
                None
            },
            PatchsetAdjust::BothBack => if self.base_index > 0 && self.comparison_index > 0 {
                Some((self.base_index - 1, self.comparison_index - 1))
            } else {
                None
            },
            PatchsetAdjust::BothForward => if self.base_index < usize::MAX
                && self.comparison_index < usize::MAX && self.base_index + 1 < self.total_commits
                && self.comparison_index + 1 < self.total_commits {
                Some((self.base_index + 1, self.comparison_index + 1))
            } else {
                None
            },
        }
    }
}

/// The interdiff screen: one rendered diff under its title, with the scroll
/// position.
#[derive(Debug)]
pub struct DiffView {
    pub commit: String,
    pub diff: String,
    pub scroll: u16,
}

/// The screens the controller can show. `Exit` is terminal.
#[derive(Debug)]
pub enum AppScreen {
    Loading(Option<String>),
    Exit,
    Error(Option<String>),
    List(ListView),
    DiffView(DiffView),
}

/// What the user asked for, as the input thread reports it.
#[derive(Debug)]
pub enum UiEvent {
    Exit,
    Scroll(ScrollEvent),
    SizeChange((u16, u16)),
    PatchsetChange((usize, usize)),
    EnterDiff(usize),
    BackToList,
    ToggleUnchanged,
    CopyToClipboard,
}

/// Which way a scroll moves.
#[derive(Debug)]
pub enum ScrollDirection {
    Up,
    Down,
}

/// How far a scroll moves: one step, a given count, half or a full page of
/// the screen, or all the way to an end.
#[derive(Debug)]
pub enum ScrollEvent {
    Top,
    Single(ScrollDirection),
    Multi((ScrollDirection, u16)),
    HalfPage(ScrollDirection),
    FullPage(ScrollDirection),
    Bottom,
}

/// A position moved by `amount`: up stops at zero, down at `length`.
pub open spec fn spec_scroll_move(
    direction: ScrollDirection,
    amount: usize,
    current: usize,
    length: usize,
) -> usize {
    match direction {
        ScrollDirection::Up => if current >= amount {
            (current - amount) as usize
        } else {
            0
        },
        ScrollDirection::Down => {
            let sum = if current + amount <= usize::MAX {
                (current + amount) as usize
            } else {
                usize::MAX
            };
            if length <= sum {
                length
            } else {
                sum
            }
        },
    }
}

impl ScrollEvent {
    /// The position this event moves to from `current`, in a list or text of
    /// `length` entries on a screen of the given size.
    pub open spec fn spec_new_index(
        &self,
        screen_size: (u16, u16),
        current: usize,
        length: usize,
    ) -> usize {
        match self {
            ScrollEvent::Top => 0,
            ScrollEvent::Bottom => length,
            ScrollEvent::Single(d) => spec_scroll_move(*d, 1, current, length),
            ScrollEvent::Multi((d, a)) => spec_scroll_move(*d, *a as usize, current, length),
            ScrollEvent::HalfPage(d) => spec_scroll_move(
                *d,
                (screen_size.1 as usize) / 2,
                current,
                length,
            ),
            ScrollEvent::FullPage(d) => spec_scroll_move(
                *d,
                screen_size.1 as usize,
                current,
                length,
            ),
        }
    }

    /// Compute the position this event moves to.
    pub fn get_new_index(&self, screen_size: (u16, u16), current: usize, length: usize) -> (r:
        usize)
        ensures
            r == self.spec_new_index(screen_size, current, length),
    {
        let (amount, direction): (usize, &ScrollDirection) = match self {
            ScrollEvent::Single(direction) => (1, direction),
            ScrollEvent::Multi((direction, amount)) => (*amount as usize, direction),
            ScrollEvent::HalfPage(direction) => ((screen_size.1 as usize) / 2, direction),
            ScrollEvent::FullPage(direction) => (screen_size.1 as usize, direction),
            ScrollEvent::Top => {
                return 0;
            },
            ScrollEvent::Bottom => {
                return length;
            },
        };
        match direction {
            ScrollDirection::Up => current.saturating_sub(amount),
            ScrollDirection::Down => {
                let sum = current.saturating_add(amount);
                if length <= sum {
                    length
                } else {
                    sum
                }
            },
        }
    }
}

/// What the controller asks its surroundings to do after an event: hand a
/// request to the worker, or put text on the clipboard.
#[derive(Debug)]
pub enum Effect {
    Dispatch(WorkerMsg<WorkerRequest>),
    Copy(String),
}

/// A directory grown by one page: prepended walking backward, appended
/// walking forward.
pub open spec fn spec_splice(
    list: Seq<String>,
    items: Seq<String>,
    direction: PageDirection,
) -> Seq<String> {
    if direction is Backward {
        items + list
    } else {
        list + items
    }
}

/// The name shown for a directory position: the identifier there, or nothing
/// when the position is out of range.
pub open spec fn spec_name_at(list: Seq<String>, i: usize) -> Seq<char> {
    if i < list.len() {
        list[i as int]@
    } else {
        Seq::empty()
    }
}

/// A selection clamped into the row range of a fresh list.
pub open spec fn spec_clamped(selected: usize, len: int) -> int {
    if len == 0 {
        0
    } else if selected >= len {
        len - 1
    } else {
        selected as int
    }
}

/// Whether the visible window sits flush against the loaded edge the token
/// continues past: at the oldest loaded commit for a backward token, at the
/// newest for a forward one.
pub open spec fn spec_wants_more(
    next: Pagination,
    base: usize,
    comparison: usize,
    total: int,
) -> bool {
    match next.spec_direction() {
        PageDirection::Backward => base == 0,
        PageDirection::Forward => comparison + 1 >= total,
    }
}

/// The hash of one side of a row, where that side is present.
pub open spec fn sha_of(m: Option<CommitMeta>) -> Option<String> {
    match m {
        Some(cm) => Some(cm.sha),
        None => None,
    }
}

/// The whole controller state: the screen, the commit directory, the active
/// comparison, and the one outstanding job.
#[derive(Debug)]
pub struct AppState {
    pub screen: AppScreen,
    pub screen_size: (u16, u16),
    pub selected: usize,
    pub show_unchanged: bool,
    pub commit_list: Vec<String>,
    pub next_page: Option<Pagination>,
    pub base_index: usize,
    pub comparison_index: usize,
    pub current_job: Option<JobId>,
}

/// Everything but the outstanding job is the same in both states.
pub open spec fn same_but_job(pre: AppState, post: AppState) -> bool {
    &&& post.screen == pre.screen
    &&& post.screen_size == pre.screen_size
    &&& post.selected == pre.selected
    &&& post.show_unchanged == pre.show_unchanged
    &&& post.commit_list == pre.commit_list
    &&& post.next_page == pre.next_page
    &&& post.base_index == pre.base_index
    &&& post.comparison_index == pre.comparison_index
}

/// Everything but the screen and the selection is the same in both states.
pub open spec fn same_surroundings(pre: AppState, post: AppState) -> bool {
    &&& post.screen_size == pre.screen_size
    &&& post.commit_list == pre.commit_list
    &&& post.next_page == pre.next_page
    &&& post.base_index == pre.base_index
    &&& post.comparison_index == pre.comparison_index
    &&& post.current_job == pre.current_job
}

/// Everything but the screen is the same in both states.
pub open spec fn unchanged_but_screen(pre: AppState, post: AppState) -> bool {
    &&& post.screen_size == pre.screen_size
    &&& post.selected == pre.selected
    &&& post.show_unchanged == pre.show_unchanged
    &&& post.commit_list == pre.commit_list
    &&& post.next_page == pre.next_page
    &&& post.base_index == pre.base_index
    &&& post.comparison_index == pre.comparison_index
    &&& post.current_job == pre.current_job
}

impl AppState {
    /// A controller before anything was loaded.
    pub fn new() -> (r: Self)
        ensures
            r.screen matches AppScreen::Loading(m) && m is None,
            r.screen_size == (0u16, 0u16),
            r.selected == 0,
            r.show_unchanged == false,
            r.commit_list@ == Seq::<String>::empty(),
            r.next_page is None,
            r.base_index == 0,
            r.comparison_index == 0,
            r.current_job is None,
    {
        AppState {
            screen: AppScreen::Loading(None),
            screen_size: (0, 0),
            selected: 0,
            show_unchanged: false,
            commit_list: Vec::new(),
            next_page: None,
            base_index: 0,
            comparison_index: 0,
            current_job: None,
        }
    }

    /// The identifier the next job will carry: after the current one, or the
    /// first when none is outstanding.
    pub open spec fn spec_next_job(&self) -> JobId {
        match self.current_job {
            Some(id) => if id.0 == u64::MAX {
                JobId(0)
            } else {
                JobId((id.0 + 1) as u64)
            },
            None => JobId(0),
        }
    }

    /// Pick the identifier for the next job.
    pub fn next_job(&self) -> (r: JobId)
        ensures
            r == self.spec_next_job(),
    {
        match self.current_job {
            Some(id) => id.next(),
            None => JobId::default(),
        }
    }

    /// The request that starts a session: fetch the first history page, with
    /// no token, and make that the outstanding job.
    pub fn initial_request(&mut self) -> (req: WorkerMsg<WorkerRequest>)
        ensures
            req.job_id == old(self).spec_next_job(),
            req.msg matches WorkerRequest::LoadCommits { pagination } && pagination is None,
            final(self).current_job == Some(old(self).spec_next_job()),
            final(self).screen == old(self).screen,
            final(self).screen_size == old(self).screen_size,
            final(self).selected == old(self).selected,
            final(self).show_unchanged == old(self).show_unchanged,
            final(self).commit_list == old(self).commit_list,
            final(self).next_page == old(self).next_page,
            final(self).base_index == old(self).base_index,
            final(self).comparison_index == old(self).comparison_index,
    {
        let job = self.next_job();
        self.current_job = Some(job);
        WorkerMsg { job_id: job, msg: WorkerRequest::LoadCommits { pagination: None } }
    }

    /// Apply one tagged worker response. A response whose id is not the
    /// outstanding job's is discarded unread, leaving the state untouched:
    /// superseded work runs to completion but its output is never observed.
    /// A fetched page grows the directory at the end matching its direction,
    /// and a prepended page shifts every tracked position by its size, so
    /// the visible comparison keeps pointing at the same identifiers. A
    /// fresh comparison becomes the list screen and, when the window then
    /// sits flush against a loaded edge with a token in hand, the next page
    /// is requested at once. A rendered interdiff becomes the diff screen,
    /// and an error the error screen.
    pub fn handle_worker(&mut self, msg: WorkerMsg<WorkerResponse>) -> (req: Option<
        WorkerMsg<WorkerRequest>,
    >)
        requires
            old(self).current_job == Some(msg.job_id) ==> (msg.msg
                matches WorkerResponse::LoadCommits { page } ==> {
                &&& (old(self).screen is Loading ==> page.items@.len()
                    + old(self).commit_list@.len() >= 2)
                &&& (page.direction is Backward && (old(self).screen is List || old(
                    self,
                ).screen is DiffView) ==> old(self).base_index + page.items@.len() <= usize::MAX
                    && old(self).comparison_index + page.items@.len() <= usize::MAX)
                &&& (page.direction is Backward ==> (old(self).screen
                    matches AppScreen::List(lv) ==> lv.base_index + page.items@.len() <= usize::MAX
                    && lv.comparison_index + page.items@.len() <= usize::MAX))
            }),
        ensures
            old(self).current_job != Some(msg.job_id) ==> *final(self) == *old(self) && req
                is None,
            old(self).current_job == Some(msg.job_id) ==> (msg.msg
                matches WorkerResponse::Error(m) ==> {
                &&& final(self).screen matches AppScreen::Error(s) && s == Some(m)
                &&& unchanged_but_screen(*old(self), *final(self))
                &&& req is None
            }),
            old(self).current_job == Some(msg.job_id) ==> (msg.msg
                matches WorkerResponse::RenderInterdiff { title, diff, scroll } ==> {
                &&& final(self).screen matches AppScreen::DiffView(dv) && dv.commit == title
                    && dv.diff == diff && dv.scroll == scroll
                &&& unchanged_but_screen(*old(self), *final(self))
                &&& req is None
            }),
            old(self).current_job == Some(msg.job_id) ==> (msg.msg
                matches WorkerResponse::LoadCommits { page } ==> {
                let k = page.items@.len();
                let newlist = spec_splice(old(self).commit_list@, page.items@, page.direction);
                let prepended = page.direction is Backward;
                &&& final(self).commit_list@ == newlist
                &&& final(self).next_page == page.next
                &&& final(self).screen_size == old(self).screen_size
                &&& final(self).selected == old(self).selected
                &&& final(self).show_unchanged == old(self).show_unchanged
                &&& match old(self).screen {
                    AppScreen::Loading(_) => {
                        let f: int = if prepended {
                            newlist.len() - 2
                        } else {
                            0
                        };
                        let t: int = if prepended {
                            newlist.len() - 1
                        } else {
                            1
                        };
                        &&& final(self).screen == old(self).screen
                        &&& final(self).base_index == old(self).base_index
                        &&& final(self).comparison_index == old(self).comparison_index
                        &&& final(self).current_job == Some(old(self).spec_next_job())
                        &&& req matches Some(m) && (m.job_id == old(self).spec_next_job()
                            && (m.msg matches WorkerRequest::CalculateBranchDiff {
                            from,
                            from_index,
                            to,
                            to_index,
                        } && (from_index == f && to_index == t && from@ == newlist[f]@ && to@
                            == newlist[t]@)))
                    },
                    AppScreen::List(lv) => {
                        let shift: int = if prepended {
                            k as int
                        } else {
                            0
                        };
                        &&& final(self).screen matches AppScreen::List(lv2) && lv2.commits
                            == lv.commits && lv2.selected == lv.selected && lv2.show_unchanged
                            == lv.show_unchanged && lv2.base_name == lv.base_name
                            && lv2.comparison_name == lv.comparison_name && lv2.base_index
                            == lv.base_index + shift && lv2.comparison_index == lv.comparison_index
                            + shift && lv2.total_commits == newlist.len()
                        &&& final(self).base_index == old(self).base_index + shift
                        &&& final(self).comparison_index == old(self).comparison_index + shift
                        &&& final(self).current_job == old(self).current_job
                        &&& req is None
                    },
                    AppScreen::DiffView(_) => {
                        let shift: int = if prepended {
                            k as int
                        } else {
                            0
                        };
                        &&& final(self).screen == old(self).screen
                        &&& final(self).base_index == old(self).base_index + shift
                        &&& final(self).comparison_index == old(self).comparison_index + shift
                        &&& final(self).current_job == old(self).current_job
                        &&& req is None
                    },
                    _ => {
                        &&& final(self).screen == old(self).screen
                        &&& final(self).base_index == old(self).base_index
                        &&& final(self).comparison_index == old(self).comparison_index
                        &&& final(self).current_job == old(self).current_job
                        &&& req is None
                    },
                }
            }),
            old(self).current_job == Some(msg.job_id) ==> (msg.msg
                matches WorkerResponse::LoadCommits { page } ==> (page.direction is Backward ==> (
            old(self).screen matches AppScreen::List(lv) ==> {
                &&& (lv.base_index < old(self).commit_list@.len() ==> (final(self).screen
                    matches AppScreen::List(lv2) && final(self).commit_list@[lv2.base_index as int]
                    == old(self).commit_list@[lv.base_index as int]))
                &&& (lv.comparison_index < old(self).commit_list@.len() ==> (final(self).screen
                    matches AppScreen::List(lv2)
                    && final(self).commit_list@[lv2.comparison_index as int]
                    == old(self).commit_list@[lv.comparison_index as int]))
            }))),
            old(self).current_job == Some(msg.job_id) ==> (msg.msg
                matches WorkerResponse::CalculateBranchDiff { commits, from, to } ==> {
                let list = old(self).commit_list@;
                &&& final(self).base_index == from
                &&& final(self).comparison_index == to
                &&& final(self).commit_list == old(self).commit_list
                &&& final(self).next_page == old(self).next_page
                &&& final(self).screen_size == old(self).screen_size
                &&& final(self).selected == old(self).selected
                &&& final(self).show_unchanged == old(self).show_unchanged
                &&& final(self).screen matches AppScreen::List(lv) && lv.commits == commits
                    && lv.selected == spec_clamped(old(self).selected, commits@.len() as int)
                    && lv.show_unchanged == old(self).show_unchanged && lv.base_name@
                    == spec_name_at(list, from) && lv.base_index == from && lv.comparison_name@
                    == spec_name_at(list, to) && lv.comparison_index == to && lv.total_commits
                    == list.len()
                &&& match old(self).next_page {
                    Some(next) => if spec_wants_more(next, from, to, list.len() as int) {
                        &&& req matches Some(m) && (m.job_id == old(self).spec_next_job()
                            && (m.msg matches WorkerRequest::LoadCommits { pagination } && pagination
                            == Some(next)))
                        &&& final(self).current_job == Some(old(self).spec_next_job())
                    } else {
                        req is None && final(self).current_job == old(self).current_job
                    },
                    None => req is None && final(self).current_job == old(self).current_job,
                }
            }),
    {
        let matched = match self.current_job {
            Option::Some(id) => id == msg.job_id,
            Option::None => false,
        };
        if !matched {
            return None;
        }
        match msg.msg {
            WorkerResponse::Error(m) => {
                self.screen = AppScreen::Error(Some(m));
                None
            },
            WorkerResponse::RenderInterdiff { title, diff, scroll } => {
                self.screen = AppScreen::DiffView(DiffView { commit: title, diff, scroll });
                None
            },
            WorkerResponse::LoadCommits { page } => {
                let Page { items, direction, next } = page;
                let k = items.len();
                let backward = direction == PageDirection::Backward;
                if backward {
                    let mut newlist = items;
                    newlist.append(&mut self.commit_list);
                    self.commit_list = newlist;
                } else {
                    let mut items = items;
                    self.commit_list.append(&mut items);
                }
                let total = self.commit_list.len();
                let mut in_list_or_diff = false;
                match &mut self.screen {
                    AppScreen::List(lv) => {
                        lv.total_commits = total;
                        if backward {
                            lv.base_index = lv.base_index + k;
                            lv.comparison_index = lv.comparison_index + k;
                        }
                        in_list_or_diff = true;
                    },
                    AppScreen::DiffView(_) => {
                        in_list_or_diff = true;
                    },
                    _ => {},
                }
                if backward && in_list_or_diff {
                    self.base_index = self.base_index + k;
                    self.comparison_index = self.comparison_index + k;
                }
                let is_loading = match &self.screen {
                    AppScreen::Loading(_) => true,
                    _ => false,
                };
                let out = if is_loading {
                    let (f, t): (usize, usize) = if backward {
                        (total - 2, total - 1)
                    } else {
                        (0, 1)
                    };
                    let job = self.next_job();
                    self.current_job = Some(job);
                    Some(
                        WorkerMsg {
                            job_id: job,
                            msg: WorkerRequest::CalculateBranchDiff {
                                from: self.commit_list[f].clone(),
                                from_index: f,
                                to: self.commit_list[t].clone(),
                                to_index: t,
                            },
                        },
                    )
                } else {
                    None
                };
                self.next_page = next;
                out
            },
            WorkerResponse::CalculateBranchDiff { commits, from, to } => {
                self.base_index = from;
                self.comparison_index = to;
                let clamped: usize = if commits.len() == 0 {
                    0
                } else if self.selected >= commits.len() {
                    commits.len() - 1
                } else {
                    self.selected
                };
                let base_name = if from < self.commit_list.len() {
                    self.commit_list[from].clone()
                } else {
                    String::new()
                };
                let comparison_name = if to < self.commit_list.len() {
                    self.commit_list[to].clone()
                } else {
                    String::new()
                };
                let total = self.commit_list.len();
                self.screen = AppScreen::List(
                    ListView {
                        commits,
                        selected: clamped,
                        show_unchanged: self.show_unchanged,
                        base_name,
                        base_index: from,
                        comparison_name,
                        comparison_index: to,
                        total_commits: total,
                    },
                );
                match &self.next_page {
                    Option::Some(next) => {
                        let wants = match next.direction() {
                            PageDirection::Backward => from == 0,
                            PageDirection::Forward => if total == 0 {
                                true
                            } else {
                                to >= total - 1
                            },
                        };
                        if wants {
                            let job = self.next_job();
                            let token = next.clone();
                            self.current_job = Some(job);
                            Some(
                                WorkerMsg {
                                    job_id: job,
                                    msg: WorkerRequest::LoadCommits { pagination: Some(token) },
                                },
                            )
                        } else {
                            None
                        }
                    },
                    Option::None => None,
                }
            },
        }
    }

    /// Apply one user event per the screen it arrives on: quitting is
    /// terminal; scrolls move the list selection or the diff position within
    /// bounds; adjusting or re-entering a comparison dispatches a fresh
    /// reconciliation for indices that are in range; selecting a visible row
    /// dispatches its render; the unchanged-rows toggle flips the filter and
    /// resets the selection; copying hands the diff text out. Anything else
    /// leaves the state untouched.
    pub fn handle_ui(&mut self, event: UiEvent) -> (eff: Option<Effect>)
        ensures
            event matches UiEvent::SizeChange(size) ==> {
                &&& final(self).screen_size == size
                &&& final(self).screen == old(self).screen
                &&& final(self).selected == old(self).selected
                &&& final(self).show_unchanged == old(self).show_unchanged
                &&& final(self).commit_list == old(self).commit_list
                &&& final(self).next_page == old(self).next_page
                &&& final(self).base_index == old(self).base_index
                &&& final(self).comparison_index == old(self).comparison_index
                &&& final(self).current_job == old(self).current_job
                &&& eff is None
            },
            event is Exit ==> {
                &&& final(self).screen is Exit
                &&& unchanged_but_screen(*old(self), *final(self))
                &&& eff is None
            },
            event is ToggleUnchanged ==> match old(self).screen {
                AppScreen::List(lv) => {
                    &&& same_surroundings(*old(self), *final(self))
                    &&& final(self).show_unchanged == !old(self).show_unchanged
                    &&& final(self).selected == 0
                    &&& final(self).screen matches AppScreen::List(lv2) && lv2.show_unchanged
                        == !old(self).show_unchanged && lv2.selected == 0 && lv2.commits
                        == lv.commits && lv2.base_name == lv.base_name && lv2.base_index
                        == lv.base_index && lv2.comparison_name == lv.comparison_name
                        && lv2.comparison_index == lv.comparison_index && lv2.total_commits
                        == lv.total_commits
                    &&& eff is None
                },
                _ => *final(self) == *old(self) && eff is None,
            },
            event matches UiEvent::Scroll(ev) ==> match old(self).screen {
                AppScreen::List(lv) => {
                    let n = ev.spec_new_index(
                        old(self).screen_size,
                        lv.selected,
                        spec_visible(lv.commits@, lv.show_unchanged).len() as usize,
                    );
                    &&& same_surroundings(*old(self), *final(self))
                    &&& final(self).show_unchanged == old(self).show_unchanged
                    &&& final(self).selected == n
                    &&& final(self).screen matches AppScreen::List(lv2) && lv2.selected == n
                        && lv2.show_unchanged == lv.show_unchanged && lv2.commits == lv.commits
                        && lv2.base_name == lv.base_name && lv2.base_index == lv.base_index
                        && lv2.comparison_name == lv.comparison_name && lv2.comparison_index
                        == lv.comparison_index && lv2.total_commits == lv.total_commits
                    &&& eff is None
                },
                AppScreen::DiffView(dv) => {
                    let n = ev.spec_new_index(
                        old(self).screen_size,
                        dv.scroll as usize,
                        spec_line_count(dv.diff@) as usize,
                    );
                    let clipped: u16 = if n <= u16::MAX {
                        n as u16
                    } else {
                        0
                    };
                    &&& unchanged_but_screen(*old(self), *final(self))
                    &&& final(self).screen matches AppScreen::DiffView(dv2) && dv2.commit
                        == dv.commit && dv2.diff == dv.diff && dv2.scroll == clipped
                    &&& eff is None
                },
                _ => *final(self) == *old(self) && eff is None,
            },
            event matches UiEvent::PatchsetChange(pair) ==> {
                if pair.0 < old(self).commit_list@.len() && pair.1 < old(self).commit_list@.len() {
                    &&& same_but_job(*old(self), *final(self))
                    &&& final(self).current_job == Some(old(self).spec_next_job())
                    &&& eff matches Some(Effect::Dispatch(m)) && (m.job_id == old(
                        self,
                    ).spec_next_job() && (m.msg matches WorkerRequest::CalculateBranchDiff {
                        from,
                        from_index,
                        to,
                        to_index,
                    } && (from_index == pair.0 && to_index == pair.1 && from == old(
                        self,
                    ).commit_list@[pair.0 as int] && to == old(self).commit_list@[pair.1 as int])))
                } else {
                    *final(self) == *old(self) && eff is None
                }
            },
            event is BackToList ==> {
                if old(self).base_index < old(self).commit_list@.len() && old(
                    self,
                ).comparison_index < old(self).commit_list@.len() {
                    &&& same_but_job(*old(self), *final(self))
                    &&& final(self).current_job == Some(old(self).spec_next_job())
                    &&& eff matches Some(Effect::Dispatch(m)) && (m.job_id == old(
                        self,
                    ).spec_next_job() && (m.msg matches WorkerRequest::CalculateBranchDiff {
                        from,
                        from_index,
                        to,
                        to_index,
                    } && (from_index == old(self).base_index && to_index == old(
                        self,
                    ).comparison_index && from == old(self).commit_list@[old(
                        self,
                    ).base_index as int] && to == old(self).commit_list@[old(
                        self,
                    ).comparison_index as int])))
                } else {
                    *final(self) == *old(self) && eff is None
                }
            },
            event matches UiEvent::EnterDiff(idx) ==> match old(self).screen {
                AppScreen::List(lv) => {
                    let vis = spec_visible(lv.commits@, lv.show_unchanged);
                    if idx < vis.len() {
                        &&& same_but_job(*old(self), *final(self))
                        &&& final(self).current_job == Some(old(self).spec_next_job())
                        &&& eff matches Some(Effect::Dispatch(m)) && (m.job_id == old(
                            self,
                        ).spec_next_job() && (m.msg matches WorkerRequest::RenderInterdiff {
                            from,
                            to,
                            render_width,
                            scroll,
                        } && (from == sha_of(vis[idx as int].from) && to == sha_of(
                            vis[idx as int].to,
                        ) && render_width == old(self).screen_size.0 && scroll == 0)))
                    } else {
                        *final(self) == *old(self) && eff is None
                    }
                },
                _ => *final(self) == *old(self) && eff is None,
            },
            event is CopyToClipboard ==> {
                &&& *final(self) == *old(self)
                &&& match old(self).screen {
                    AppScreen::DiffView(dv) => eff matches Some(Effect::Copy(text)) && text
                        == dv.diff,
                    _ => eff is None,
                }
            },
    {
        match event {
            UiEvent::SizeChange(size) => {
                self.screen_size = size;
                None
            },
            UiEvent::Exit => {
                self.screen = AppScreen::Exit;
                None
            },
            UiEvent::ToggleUnchanged => {
                let flipped = !self.show_unchanged;
                match &mut self.screen {
                    AppScreen::List(lv) => {
                        self.show_unchanged = flipped;
                        lv.show_unchanged = flipped;
                        lv.selected = 0;
                        self.selected = 0;
                    },
                    _ => {},
                }
                None
            },
            UiEvent::Scroll(ev) => {
                let size = self.screen_size;
                match &mut self.screen {
                    AppScreen::List(lv) => {
                        let len = lv.get_visible_commits().len();
                        let n = ev.get_new_index(size, lv.selected, len);
                        lv.selected = n;
                        self.selected = n;
                    },
                    AppScreen::DiffView(dv) => {
                        let len = count_lines(dv.diff.as_str());
                        let n = ev.get_new_index(size, dv.scroll as usize, len);
                        dv.scroll = if n <= u16::MAX as usize {
                            n as u16
                        } else {
                            0
                        };
                    },
                    _ => {},
                }
                None
            },
            UiEvent::PatchsetChange(pair) => {
                let (from_index, to_index) = pair;
                if from_index < self.commit_list.len() && to_index < self.commit_list.len() {
                    let job = self.next_job();
                    self.current_job = Some(job);
                    Some(
                        Effect::Dispatch(
                            WorkerMsg {
                                job_id: job,
                                msg: WorkerRequest::CalculateBranchDiff {
                                    from: self.commit_list[from_index].clone(),
                                    from_index,
                                    to: self.commit_list[to_index].clone(),
                                    to_index,
                                },
                            },
                        ),
                    )
                } else {
                    None
                }
            },
            UiEvent::BackToList => {
                if self.base_index < self.commit_list.len() && self.comparison_index
                    < self.commit_list.len() {
                    let job = self.next_job();
                    self.current_job = Some(job);
                    Some(
                        Effect::Dispatch(
                            WorkerMsg {
                                job_id: job,
                                msg: WorkerRequest::CalculateBranchDiff {
                                    from: self.commit_list[self.base_index].clone(),
                                    from_index: self.base_index,
                                    to: self.commit_list[self.comparison_index].clone(),
                                    to_index: self.comparison_index,
                                },
                            },
                        ),
                    )
                } else {
                    None
                }
            },
            UiEvent::EnterDiff(idx) => {
                let shas: Option<(Option<String>, Option<String>)> = match &self.screen {
                    AppScreen::List(lv) => {
                        let visible = lv.get_visible_commits();
                        if idx < visible.len() {
                            let from = match &visible[idx].from {
                                Option::Some(cm) => Option::Some(cm.sha.clone()),
                                Option::None => Option::None,
                            };
                            let to = match &visible[idx].to {
                                Option::Some(cm) => Option::Some(cm.sha.clone()),
                                Option::None => Option::None,
                            };
                            Some((from, to))
                        } else {
                            None
                        }
                    },
                    _ => None,
                };
                match shas {
                    Option::Some((from, to)) => {
                        let job = self.next_job();
                        self.current_job = Some(job);
                        Some(
                            Effect::Dispatch(
                                WorkerMsg {
                                    job_id: job,
                                    msg: WorkerRequest::RenderInterdiff {
                                        from,
                                        to,
                                        render_width: self.screen_size.0,
                                        scroll: 0,
                                    },
                                },
                            ),
                        )
                    },
                    Option::None => None,
                }
            },
            UiEvent::CopyToClipboard => {
                match &self.screen {
                    AppScreen::DiffView(dv) => Some(Effect::Copy(dv.diff.clone())),
                    _ => None,
                }
            },
        }
    }
}

} // verus!
