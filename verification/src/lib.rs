//! Core logic of an interactive branch-comparison viewer: reconciling two
//! commit sequences across rewrites, a staleness-checked background job
//! pipeline, incremental pagination of the commit directory, and the view
//! state machine that drives the screens.

pub mod diff;
pub mod error;
pub mod pr;
pub mod text;
pub mod trees;
pub mod tui;
