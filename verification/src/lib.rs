//! Commit-message generation pipeline: extract a staged diff, split it into
//! per-file segments, summarize each segment through a pluggable backend, and
//! merge the result with any pre-existing commit message.

pub mod client;
pub mod cmd;
pub mod git;
pub mod hook;
pub mod message;
pub mod segment;
pub mod summarize;
