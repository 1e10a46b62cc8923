//! Presentation-layer core of a single-page application.
//!
//! Two pieces live here: a route-aware keyboard-shortcut dispatcher that
//! translates raw key events into application actions, and a staged render
//! pipeline that lets a job-result view expose externally produced rich
//! content safely, by staging it invisibly before a separate pass promotes
//! it into the visible tree.

pub mod job;
pub mod job_result;
pub mod node;
pub mod route;
pub mod shortcut;
