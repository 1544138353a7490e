//! Presence-triggered, cancellable command dispatch.
//!
//! The library holds the decisions of a watcher that polls for a file and
//! launches a command once it appears, together with the parsing of the
//! `Label:command` pair of the auxiliary action. The caller performs the
//! actual I/O (existence checks, sleeps, process spawning) and feeds the
//! observations back in.

pub mod command;
pub mod coordinator;
pub mod laws;
