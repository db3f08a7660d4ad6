//! A resumable batch downloader, as a set of verified state machines.
//!
//! The crate holds the decisions of the downloader: how one fetch is retried
//! and backed off, how the pause between requests grows, which items a
//! restarted run skips, and what is done for each item of the input list.
//! Network and file access are left to the caller, which performs the actions
//! that the state machines hand out and reports back what happened.

pub mod batch;
pub mod decimal;
pub mod orchestrator;
pub mod pacing;
pub mod rehearsal;
pub mod resume;
pub mod retry;
pub mod schedule;
pub mod transport;
