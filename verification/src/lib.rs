//! Verified orchestration core for a photogrammetry worker pipeline.
//!
//! The library models one request's task lifecycle against an external
//! containerized worker: initialize a task, upload input items, commit,
//! poll until a terminal status, retrieve the result archive, delete the
//! task, and stop the worker. The decisions of that pipeline live here as
//! a verified state machine; an unverified shell performs the actual
//! process management and network calls and feeds the observed events back.

pub mod errors;
pub mod json;
pub mod launch;
pub mod machine;
pub mod status;
pub mod urls;
