//! The interactive controller: job identifiers, the single event stream that
//! joins the worker and input threads, and the view state machine.
use vstd::prelude::*;

pub mod state;
pub mod worker;

use crate::tui::state::UiEvent;
use crate::tui::worker::{WorkerMsg, WorkerResponse};

verus! {

/// Everything the controller thread can receive: a tagged worker response or
/// a user-interface event.
#[derive(Debug)]
pub enum MainThreadMsg {
    Worker(WorkerMsg<WorkerResponse>),
    Ui(UiEvent),
}

/// Tag carried by every request to, and response from, the background worker.
/// Identifiers are handed out in sequence and never reused within a session;
/// on overflow the counter wraps around.
#[derive(Debug, Copy, Clone, PartialEq, Eq, Structural)]
pub struct JobId(pub u64);

impl JobId {
    /// The identifier following `self`, wrapping at the top of the range.
    pub fn next(self) -> (r: Self)
        ensures
            r.0 == if self.0 == u64::MAX {
                0u64
            } else {
                (self.0 + 1) as u64
            },
    {
        Self(self.0.wrapping_add(1))
    }
}

impl Default for JobId {
    fn default() -> (r: Self)
        ensures
            r.0 == 0,
    {
        Self(0)
    }
}

} // verus!
