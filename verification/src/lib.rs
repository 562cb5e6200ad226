//! A debounced, single-flight build coordinator for a shader crate that is
//! rebuilt whenever its watched sources change.
//!
//! The library holds the decisions: which file-system notifications matter
//! for a watch target, where a watch is rooted, and when a change signal may
//! launch a build. Waiting for events, running the compiler and printing the
//! notices are left to the program around it.

pub mod coordinator;
pub mod metadata;
pub mod outcome;
pub mod paths;
pub mod target;
pub mod trace;
