//! The resize bridge: how a window-resize signal becomes input that the
//! relay can poll for.
//!
//! A signal handler may do next to nothing.  So the handler only writes
//! one byte into a pipe, and the relay, which polls the other end of that
//! pipe, does the work.  The write end is made known once, before the
//! handler is installed, and never changes afterwards.

use vstd::prelude::*;

verus! {

/// The byte that stands for one resize signal.
pub const RESIZE_SENTINEL: u8 = 0;

/// What the handler of a resize signal is to do: write `byte` to `fd`
/// once, and pay no attention to whether that worked.
#[derive(Clone, Copy, Debug, PartialEq, Eq, Structural)]
pub struct SentinelWrite {
    pub fd: i32,
    pub byte: u8,
}

/// The bridge as the signal handler sees it: not armed yet, or armed with
/// the descriptor of the write end.
#[derive(Clone, Copy, Debug, PartialEq, Eq)]
pub struct ResizeBridge {
    write_end: Option<i32>,
}

impl ResizeBridge {
    /// The write end that the bridge was armed with, if it was armed.
    pub closed spec fn published(&self) -> Option<i32> {
        self.write_end
    }

    /// A bridge that is not armed.
    pub fn new() -> (bridge: ResizeBridge)
        ensures
            bridge.published() is None,
    {
        ResizeBridge { write_end: None }
    }

    /// Arms the bridge with `write_end`, if it is not armed yet, and tells
    /// whether it did.  An armed bridge keeps the descriptor it has.
    pub fn arm(&mut self, write_end: i32) -> (armed: bool)
        ensures
            armed == old(self).published() is None,
            final(self).published() == match old(self).published() {
                Some(first) => Some(first),
                None => Some(write_end),
            },
    {
        match self.write_end {
            Some(_) => false,
            None => {
                self.write_end = Some(write_end);
                true
            },
        }
    }

    /// Whether the bridge is armed.
    pub fn is_armed(&self) -> (armed: bool)
        ensures
            armed == self.published() is Some,
    {
        self.write_end.is_some()
    }

    /// What to do on a resize signal: on an armed bridge, write the
    /// sentinel to the write end; else nothing.
    pub fn on_signal(&self) -> (write: Option<SentinelWrite>)
        ensures
            write == match self.published() {
                Some(fd) => Some(SentinelWrite { fd, byte: RESIZE_SENTINEL }),
                None => None,
            },
    {
        match self.write_end {
            Some(fd) => Some(SentinelWrite { fd, byte: RESIZE_SENTINEL }),
            None => None,
        }
    }
}

} // verus!
