//! The screen that is currently active.

use vstd::prelude::*;

verus! {

/// Identifies which top-level screen of the application is active.
///
/// At most one route is active at any time; the value is resolved from
/// navigation state by the router and is read-only to this crate.
#[derive(Clone, Copy, PartialEq, Eq, Structural, Debug)]
pub enum Route {
    /// The landing screen, which owns the search bar.
    Home,
    /// The detail screen of the task with the given id. The id is not used
    /// by the shortcut dispatch logic itself.
    Task(u64),
}

} // verus!
