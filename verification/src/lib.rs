//! The decisions of a pseudo-terminal session host.
//!
//! A session host runs a shell under a new controlling terminal, relays
//! bytes between the invoking terminal and that shell, follows window
//! resizes, and offers a named pipe through which other processes can type
//! into the session.  Every system call of such a host is made by its
//! caller; this crate holds what the host decides between those calls, as
//! functions from plain values to plain values:
//!
//! - [`config`] reads the command line and picks the session number;
//! - [`launch`] takes a process from its configuration to its exit code;
//! - [`child`] lists what the child of the fork does to become the
//!   session's program;
//! - [`parent`] leads the parent of the fork through the life of the
//!   session and sees to it that the injection pipe is removed;
//! - [`event_loop`] is the relay between the terminal, the session and
//!   the pipe;
//! - [`resize`] turns resize signals into input of the relay;
//! - [`term`] holds the terminal's size, its raw mode and the guard of its
//!   attributes;
//! - [`pipe`] names the injection pipe, [`log`] words what the user is
//!   told, and [`decimal`] reads and writes the numbers in both.

use vstd::prelude::*;

pub mod child;
pub mod config;
pub mod decimal;
pub mod event_loop;
pub mod launch;
pub mod log;
pub mod parent;
pub mod pipe;
pub mod resize;
pub mod term;

verus! {

/// Environment variable that marks a process as running inside a session;
/// its value is the number of that session.
pub const WYE_SESSION_VAR: &'static str = "WYE";

/// Directory in which the injection pipes live.
pub const WYE_PIPE_DIR: &'static str = "/tmp";

/// First part of an injection pipe's file name.
pub const WYE_PIPE_PREFIX: &'static str = "wye";

/// Program run in the session where neither the command line nor the
/// environment names one.
pub const FALLBACK_SHELL: &'static str = "/bin/sh";

/// How one request to the operating system ended.
#[derive(Clone, Copy, Debug, PartialEq, Eq, Structural)]
pub enum Outcome {
    /// The request was carried out.
    Done,
    /// The request failed with this error number.
    Failed(i32),
}

} // verus!
