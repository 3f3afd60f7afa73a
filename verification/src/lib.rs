//! Client-side engine for driving a remote test suite: it enumerates the
//! suite's cases page by page, selects the ones to run, renders the suite's
//! lifecycle events as a console report, and decides whether a run ended
//! cleanly.
//!
//! The library performs no I/O. Every step takes what the remote side
//! answered as a plain value and returns the lines to print together with
//! the state that names the next request.

pub mod command;
pub mod enumerate;
pub mod error;
pub mod launch;
pub mod listing;
pub mod model;
pub mod pattern;
pub mod report;
pub mod run;
pub mod select;
pub mod step;
pub mod text;
