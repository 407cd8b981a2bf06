//! The injection pipe of a session: where it lives and what it is called.
//!
//! The pipe of session `N` is the file `wye-N` in the pipe directory.  A
//! new session finds the numbers in use by reading the names in that
//! directory.

use vstd::prelude::*;
use crate::decimal::{
    chars_of, decimal_digits, lemma_format_then_parse, parse_digits, parsed, push_decimal,
};
use crate::{WYE_PIPE_DIR, WYE_PIPE_PREFIX};

verus! {

/// Permission bits of a new injection pipe: read, write and execute for
/// the owning user, nothing for anyone else.
pub const PIPE_MODE: u32 = 0o700;

/// What every pipe's file name starts with: the prefix and a hyphen.
pub open spec fn name_lead() -> Seq<char> {
    WYE_PIPE_PREFIX@.push('-')
}

/// The file name of the pipe of session `number`.
pub open spec fn pipe_name(number: u32) -> Seq<char> {
    name_lead() + decimal_digits(number as nat)
}

/// The path of the pipe of session `number`.
pub open spec fn pipe_path_of(number: u32) -> Seq<char> {
    WYE_PIPE_DIR@.push('/') + pipe_name(number)
}

/// The session whose pipe a directory entry called `name` is: the number
/// written after the lead.  A name without the lead, or with anything but
/// a number after it, is no session's pipe.
pub open spec fn entry_number(name: Seq<char>) -> Option<u32> {
    let lead = name_lead();
    if name.len() >= lead.len() && name.take(lead.len() as int) == lead {
        parsed(name.skip(lead.len() as int))
    } else {
        None
    }
}

/// The path of the pipe of session `number`.
pub fn pipe_path(number: u32) -> (path: String)
    ensures
        path@ == pipe_path_of(number),
{
    let mut path = String::from_str(WYE_PIPE_DIR);
    path.append("/");
    path.append(WYE_PIPE_PREFIX);
    path.append("-");
    push_decimal(&mut path, number);
    proof {
        reveal_strlit("/");
        reveal_strlit("-");
    }
    path
}

/// The session whose pipe the directory entry `name` is, if it is one.
pub fn session_of_entry(name: &str) -> (number: Option<u32>)
    ensures
        number == entry_number(name@),
{
    let chars = chars_of(name);
    let mut lead = chars_of(WYE_PIPE_PREFIX);
    lead.push('-');
    if chars.len() < lead.len() {
        return None;
    }
    let mut i: usize = 0;
    while i < lead.len()
        invariant
            i <= lead.len() <= chars.len(),
            chars@ == name@,
            lead@ == name_lead(),
            chars@.take(i as int) == lead@.take(i as int),
        decreases lead.len() - i,
    {
        if chars[i] != lead[i] {
            return None;
        }
        i = i + 1;
    }
    assert(lead@.take(lead.len() as int) =~= lead@);
    parse_digits(&chars, lead.len())
}

/// The name that a session gives its pipe is read back as that session's
/// number: a running session is seen by every later scan of the directory.
pub proof fn lemma_pipe_name_names_session(number: u32)
    ensures
        entry_number(pipe_name(number)) == Some(number),
{
    let lead = name_lead();
    let name = pipe_name(number);
    assert(name.take(lead.len() as int) =~= lead);
    assert(name.skip(lead.len() as int) =~= decimal_digits(number as nat));
    lemma_format_then_parse(number);
}

} // verus!
