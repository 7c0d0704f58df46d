//! Runs a command again and again until its exit status meets a stop condition.
//!
//! The crate holds the decisions of that loop and none of its effects. A caller
//! resolves the command line into [`options::Options`], asks the terminal for
//! its [`terminal::Capabilities`], and then spawns the command, reports what
//! came of it as a [`retry::Event`] and performs the [`terminal::Output`]
//! steps that [`retry::step`] answers with, until the loop has terminated.
//!
//! - [`options`]: the run configuration and its resolution.
//! - [`terminal`]: capabilities, output steps and styling.
//! - [`message`]: the two status messages.
//! - [`retry`]: the loop as a state machine, one event at a time.
//! - [`trace`]: whole runs, and what holds of every run.

pub mod message;
pub mod options;
pub mod retry;
pub mod terminal;
pub mod trace;
