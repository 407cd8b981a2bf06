//! The lines that tell the user about sessions.
//!
//! Each function gives one line as text; the caller writes its bytes to
//! the terminal.  A line starts with a carriage return and ends with a
//! carriage return and a line feed, so that it reads well on a terminal
//! in raw mode too.

use vstd::prelude::*;
use crate::decimal::{decimal_digits, push_decimal};

verus! {

/// The line that says that the process runs inside `session` already.
pub open spec fn already_in_session_line(session: Seq<char>) -> Seq<char> {
    "\rWye in session: "@ + session + "\r\n"@
}

/// The line that says that session `session` was opened, with its pipe at
/// `pipe`.
pub open spec fn opened_session_line(session: u32, pipe: Seq<char>) -> Seq<char> {
    "\rWye new session: "@ + decimal_digits(session as nat) + ", "@ + pipe + "\r\n"@
}

/// The line that says that session `session` was closed.
pub open spec fn closed_session_line(session: u32) -> Seq<char> {
    "\rWye closed session: "@ + decimal_digits(session as nat) + "\r\n"@
}

/// The line for a process that was started inside a session: `session` is
/// the value of the session marker, as found in the environment.
pub fn log_already_in_session(session: &str) -> (line: String)
    ensures
        line@ == already_in_session_line(session@),
{
    let mut line = String::from_str("\rWye in session: ");
    line.append(session);
    line.append("\r\n");
    line
}

/// The line for a session that was opened.
pub fn log_opened_session(session: u32, pipe: &str) -> (line: String)
    ensures
        line@ == opened_session_line(session, pipe@),
{
    let mut line = String::from_str("\rWye new session: ");
    push_decimal(&mut line, session);
    line.append(", ");
    line.append(pipe);
    line.append("\r\n");
    line
}

/// The line for a session that was closed.
pub fn log_closed_session(session: u32) -> (line: String)
    ensures
        line@ == closed_session_line(session),
{
    let mut line = String::from_str("\rWye closed session: ");
    push_decimal(&mut line, session);
    line.append("\r\n");
    line
}

} // verus!
