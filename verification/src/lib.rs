//! Decision logic of a desktop application's local process supervisor.
//!
//! The supervisor keeps one server process and one background worker alive,
//! runs a one-shot migration before either starts, and tears everything down
//! on exit. This crate holds every rule of that supervisor as verified
//! functions on plain values; spawning, killing, sleeping and probing are left
//! to the caller, which performs the steps these functions hand out and
//! reports back what happened.

pub mod kinds;
pub mod paths;
pub mod launch;
pub mod slot;
pub mod process;
pub mod port;
pub mod commands;
pub mod invariants;
