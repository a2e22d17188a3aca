//! Decision logic of a process restarter: stop every process of a given name,
//! then start the named program afresh, detached from the caller's streams.
//!
//! The library performs no I/O. It decides what is to be done next and what is
//! to be printed; the caller carries the decisions out and reports back.

pub mod exit_code;
pub mod messages;
pub mod args;
pub mod protocol;
pub mod respawner;
pub mod runs;
