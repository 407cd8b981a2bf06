//! The invoking terminal: its size, its raw mode, and the guard that
//! remembers how it was found.

use vstd::prelude::*;
use nix::sys::termios::{LocalFlags, Termios};

verus! {

/// Dimensions of a terminal, in character cells and in pixels.
#[derive(Clone, Copy, Debug, PartialEq, Eq, Structural)]
pub struct WindowSize {
    pub rows: u16,
    pub cols: u16,
    pub x_pixels: u16,
    pub y_pixels: u16,
}

/// The size assumed where the terminal cannot be asked: 24 rows of 80
/// columns.
pub open spec fn fallback_window_size() -> WindowSize {
    WindowSize { rows: 24, cols: 80, x_pixels: 0, y_pixels: 0 }
}

/// The size to give the pseudo-terminal: what the terminal reported, or
/// the fallback where the query failed.
pub fn get_winsize(queried: Option<WindowSize>) -> (size: WindowSize)
    ensures
        size == match queried {
            Some(reported) => reported,
            None => fallback_window_size(),
        },
{
    match queried {
        Some(reported) => reported,
        None => WindowSize { rows: 24, cols: 80, x_pixels: 0, y_pixels: 0 },
    }
}

/// nix's record of a terminal's attributes.  Nothing is known of its
/// contents here; it is taken from the terminal and given back to it.
#[verifier::external_type_specification]
#[verifier::external_body]
pub struct ExTermios(nix::sys::termios::Termios);

/// A local-mode flag of a cooked terminal: one of the three that raw mode
/// switches off.
#[derive(Clone, Copy, Debug, PartialEq, Eq, Structural)]
pub enum CookedFlag {
    /// Input is handed over line by line.
    CanonicalInput,
    /// What is typed is echoed.
    Echo,
    /// Control characters raise signals.
    SignalKeys,
}

/// The bits of a local-mode flag in a terminal's attributes.  They are
/// the target's: nix takes them from the platform's headers, and they are
/// the same wherever this build runs.
pub uninterp spec fn local_flag_bit(flag: CookedFlag) -> u64;

/// The bits that nix's `LocalFlags::ICANON`, `LocalFlags::ECHO` and
/// `LocalFlags::ISIG` hold, by `bits()`, widened.  All that is claimed is
/// that the result is what [`local_flag_bit`] names for that flag; of its
/// value nothing is claimed.
#[verifier::external_body]
fn flag_bit(flag: CookedFlag) -> (bit: u64)
    ensures
        bit == local_flag_bit(flag),
{
    let flag = match flag {
        CookedFlag::CanonicalInput => LocalFlags::ICANON,
        CookedFlag::Echo => LocalFlags::ECHO,
        CookedFlag::SignalKeys => LocalFlags::ISIG,
    };
    flag.bits() as u64
}

/// The bits that make a terminal cooked: those of canonical input, of
/// echo and of signals from control characters.
pub open spec fn cooked_bits() -> u64 {
    local_flag_bit(CookedFlag::CanonicalInput) | local_flag_bit(CookedFlag::Echo) | local_flag_bit(
        CookedFlag::SignalKeys,
    )
}

/// `flags` with every bit of `mask` switched off, and no other bit
/// changed.
pub fn without_flags(flags: u64, mask: u64) -> (cleared: u64)
    ensures
        cleared == flags & !mask,
{
    flags & !mask
}

/// The local-mode flags of raw mode: `flags` with canonical input, echo
/// and signals from control characters switched off, and no other flag
/// changed.
pub fn raw_local_flags(flags: u64) -> (raw: u64)
    ensures
        raw == flags & !cooked_bits(),
{
    let cooked = flag_bit(CookedFlag::CanonicalInput) | flag_bit(CookedFlag::Echo) | flag_bit(
        CookedFlag::SignalKeys,
    );
    without_flags(flags, cooked)
}

/// Remembers the attributes that a terminal had when the guard was made,
/// so that they can be put back when the session is over.
///
/// The guard cannot be changed once made: whatever is done to the
/// terminal while it is held, it gives back the attributes it was made
/// with.  Giving them back uses the guard up.
pub struct TerminalModeGuard {
    original: Termios,
    fd: i32,
}

impl TerminalModeGuard {
    /// The attributes that the guard was made with.
    pub closed spec fn snapshot(&self) -> Termios {
        self.original
    }

    /// The descriptor of the guarded terminal.
    pub closed spec fn descriptor(&self) -> i32 {
        self.fd
    }

    /// A guard for the terminal at descriptor `fd`, whose attributes were
    /// just read as `original`.
    pub fn new(fd: i32, original: Termios) -> (guard: TerminalModeGuard)
        ensures
            guard.descriptor() == fd,
            guard.snapshot() == original,
    {
        TerminalModeGuard { original, fd }
    }

    /// The descriptor of the guarded terminal.
    pub fn fd(&self) -> (fd: i32)
        ensures
            fd == self.descriptor(),
    {
        self.fd
    }

    /// The attributes to put back.
    pub fn original(&self) -> (original: &Termios)
        ensures
            *original == self.snapshot(),
    {
        &self.original
    }

    /// Ends the guard: the descriptor and the attributes to set on it.
    pub fn release(self) -> (restore: (i32, Termios))
        ensures
            restore.0 == self.descriptor(),
            restore.1 == self.snapshot(),
    {
        (self.fd, self.original)
    }
}

} // verus!
