//! The run of the host as a whole: from the resolved configuration to
//! the exit code.
//!
//! The run is a state machine.  Its state names the one request it waits
//! on ([`Launch::action`]); the caller carries the request out and hands
//! the result to [`advance`], which gives the next state.
//!
//! A process that finds itself inside a session only says so.  Any other
//! takes a snapshot of the terminal's attributes, opens a pseudo-terminal,
//! puts the terminal into raw mode and forks.  From the snapshot on, every
//! way to the exit leads through the restoring of the terminal, with one
//! exception: the child whose program cannot be started stops at once.

use vstd::prelude::*;
use crate::child::ChildFailure;
use crate::config::Config;
use crate::Outcome;

verus! {

/// Exit code of a run that ends well.
pub const EXIT_SUCCESS: i32 = 0;

/// Exit code of a run that fails, where no error number of the operating
/// system is the exit code.
pub const EXIT_FAILURE: i32 = 1;

/// Which process a fork returned in.
#[derive(Clone, Copy, Debug, PartialEq, Eq, Structural)]
pub enum Side {
    Parent,
    Child,
}

/// What the run waits on.
#[derive(Clone, Copy, Debug, PartialEq, Eq, Structural)]
pub enum LaunchPhase {
    /// The line that tells of the session this process is in.
    Report,
    /// The snapshot of the terminal's attributes.
    Guard,
    /// The pseudo-terminal.
    OpenPty,
    /// The terminal's raw mode.
    RawMode,
    /// The fork.
    Fork,
    /// In the parent: the closing of the slave.
    CloseSlave,
    /// In the parent: the session, until it is over.
    Parent,
    /// In the child: the closing of the master.
    CloseMaster,
    /// In the child: the steps to the program.
    Child,
    /// The closing of what is open of the pseudo-terminal.
    ReleasePty,
    /// The restoring of the terminal's attributes from the snapshot.
    Restore,
    /// The exit, all undone that was done.
    Exit,
    /// The exit of a child without a program, nothing undone.
    Abandon,
}

/// What the caller reports back to the run.
#[derive(Clone, Copy, Debug, PartialEq, Eq, Structural)]
pub enum LaunchEvent {
    /// How the request ended.  For [`LaunchAction::RunParent`], how the
    /// session ended.
    Step(Outcome),
    /// Answers [`LaunchAction::Fork`] where the fork succeeded.
    Forked(Side),
    /// Answers [`LaunchAction::RunChild`]; a child that reaches its
    /// program reports nothing any more.
    ChildStopped(ChildFailure),
}

/// What the run asks its caller to do next.
#[derive(Clone, Copy, Debug, PartialEq, Eq, Structural)]
pub enum LaunchAction {
    /// Write the line that tells of the session this process is in.
    Report,
    /// Read the terminal's attributes and keep them in a guard.
    AcquireGuard,
    /// Open a pseudo-terminal with the terminal's size and attributes.
    OpenPty,
    /// Switch off canonical input, echo and signal keys on the terminal.
    EnterRawMode,
    /// Fork.
    Fork,
    /// Close the slave of the pseudo-terminal.
    CloseSlave,
    /// Run the session to its end.
    RunParent,
    /// Close the master of the pseudo-terminal.
    CloseMaster,
    /// Take the child's steps to the program.
    RunChild,
    /// Close every descriptor of the pseudo-terminal that is still open.
    ReleasePty,
    /// Set the terminal's attributes from the guard and end the guard;
    /// a failure changes nothing in what follows.
    RestoreTerminal,
    /// Exit with this code.
    Exit(i32),
    /// Exit with this code at once and undo nothing: close no descriptor,
    /// restore no attribute, end no guard.
    Abandon(i32),
}

/// The state of a run.
#[derive(Clone, Copy, Debug, PartialEq, Eq, Structural)]
pub struct Launch {
    pub phase: LaunchPhase,
    /// The exit code, as far as it is settled.
    pub code: i32,
}

impl LaunchPhase {
    /// Whether a guard is held in this phase, and its restoring not yet
    /// asked for: a snapshot was taken, and the run has not come to the
    /// request that puts it back.
    pub open spec fn holds_guard(self) -> bool {
        match self {
            LaunchPhase::Report | LaunchPhase::Guard | LaunchPhase::Exit => false,
            LaunchPhase::Restore => false,
            _ => true,
        }
    }
}

impl Launch {
    /// The run of a process before its first step: inside a session it
    /// reports that session, outside it sets out to open one.
    pub open spec fn initial(in_session: bool) -> Launch {
        Launch {
            phase: if in_session {
                LaunchPhase::Report
            } else {
                LaunchPhase::Guard
            },
            code: EXIT_SUCCESS,
        }
    }

    /// The run in `phase`, with the exit code as it is.
    pub open spec fn at(self, phase: LaunchPhase) -> Launch {
        Launch { phase, code: self.code }
    }

    /// The request that this state waits on.
    pub open spec fn request(self) -> LaunchAction {
        match self.phase {
            LaunchPhase::Report => LaunchAction::Report,
            LaunchPhase::Guard => LaunchAction::AcquireGuard,
            LaunchPhase::OpenPty => LaunchAction::OpenPty,
            LaunchPhase::RawMode => LaunchAction::EnterRawMode,
            LaunchPhase::Fork => LaunchAction::Fork,
            LaunchPhase::CloseSlave => LaunchAction::CloseSlave,
            LaunchPhase::Parent => LaunchAction::RunParent,
            LaunchPhase::CloseMaster => LaunchAction::CloseMaster,
            LaunchPhase::Child => LaunchAction::RunChild,
            LaunchPhase::ReleasePty => LaunchAction::ReleasePty,
            LaunchPhase::Restore => LaunchAction::RestoreTerminal,
            LaunchPhase::Exit => LaunchAction::Exit(self.code),
            LaunchPhase::Abandon => LaunchAction::Abandon(self.code),
        }
    }

    /// The state after `event`.  An event that does not answer the request
    /// of this state leaves the state as it is.
    ///
    /// What was acquired is given up in reverse order: first the
    /// pseudo-terminal, then the terminal's attributes.  The exit code is
    /// zero after a session that ended well and after a report; it is the
    /// error number where the fork or the start of the program failed,
    /// and one after any other failure.
    pub open spec fn next(self, event: LaunchEvent) -> Launch {
        match (self.phase, event) {
            (LaunchPhase::Report, LaunchEvent::Step(Outcome::Done)) => Launch {
                phase: LaunchPhase::Exit,
                code: EXIT_SUCCESS,
            },
            (LaunchPhase::Report, LaunchEvent::Step(Outcome::Failed(_))) => Launch {
                phase: LaunchPhase::Exit,
                code: EXIT_FAILURE,
            },
            (LaunchPhase::Guard, LaunchEvent::Step(Outcome::Done)) => self.at(LaunchPhase::OpenPty),
            (LaunchPhase::Guard, LaunchEvent::Step(Outcome::Failed(_))) => Launch {
                phase: LaunchPhase::Exit,
                code: EXIT_FAILURE,
            },
            (LaunchPhase::OpenPty, LaunchEvent::Step(Outcome::Done)) => self.at(
                LaunchPhase::RawMode,
            ),
            (LaunchPhase::OpenPty, LaunchEvent::Step(Outcome::Failed(_))) => Launch {
                phase: LaunchPhase::Restore,
                code: EXIT_FAILURE,
            },
            (LaunchPhase::RawMode, LaunchEvent::Step(Outcome::Done)) => self.at(LaunchPhase::Fork),
            (LaunchPhase::Fork, LaunchEvent::Forked(Side::Parent)) => self.at(
                LaunchPhase::CloseSlave,
            ),
            (LaunchPhase::Fork, LaunchEvent::Forked(Side::Child)) => self.at(
                LaunchPhase::CloseMaster,
            ),
            (LaunchPhase::Fork, LaunchEvent::Step(Outcome::Failed(errno))) => Launch {
                phase: LaunchPhase::ReleasePty,
                code: errno,
            },
            (LaunchPhase::CloseSlave, LaunchEvent::Step(Outcome::Done)) => self.at(
                LaunchPhase::Parent,
            ),
            (LaunchPhase::Parent, LaunchEvent::Step(Outcome::Done)) => Launch {
                phase: LaunchPhase::ReleasePty,
                code: EXIT_SUCCESS,
            },
            (LaunchPhase::CloseMaster, LaunchEvent::Step(Outcome::Done)) => self.at(
                LaunchPhase::Child,
            ),
            (LaunchPhase::Child, LaunchEvent::ChildStopped(ChildFailure::Replace(errno))) => Launch {
                phase: LaunchPhase::Abandon,
                code: errno,
            },
            (LaunchPhase::Child, LaunchEvent::ChildStopped(ChildFailure::Setup(_))) => Launch {
                phase: LaunchPhase::ReleasePty,
                code: EXIT_FAILURE,
            },
            (
                LaunchPhase::RawMode | LaunchPhase::CloseSlave | LaunchPhase::Parent
                | LaunchPhase::CloseMaster,
                LaunchEvent::Step(Outcome::Failed(_)),
            ) => Launch { phase: LaunchPhase::ReleasePty, code: EXIT_FAILURE },
            (LaunchPhase::ReleasePty, LaunchEvent::Step(_)) => self.at(LaunchPhase::Restore),
            (LaunchPhase::Restore, LaunchEvent::Step(_)) => self.at(LaunchPhase::Exit),
            _ => self,
        }
    }

    /// The state reached from this one through `events`, in order.
    pub open spec fn run(self, events: Seq<LaunchEvent>) -> Launch
        decreases events.len(),
    {
        if events.len() == 0 {
            self
        } else {
            self.run(events.drop_last()).next(events.last())
        }
    }

    /// The run of a process with `config` before its first step.
    pub fn new(config: &Config) -> (state: Launch)
        ensures
            state == Launch::initial(config.in_session),
    {
        Launch {
            phase: if config.in_session {
                LaunchPhase::Report
            } else {
                LaunchPhase::Guard
            },
            code: EXIT_SUCCESS,
        }
    }

    /// What the caller is to do in this state.
    pub fn action(&self) -> (action: LaunchAction)
        ensures
            action == self.request(),
    {
        match self.phase {
            LaunchPhase::Report => LaunchAction::Report,
            LaunchPhase::Guard => LaunchAction::AcquireGuard,
            LaunchPhase::OpenPty => LaunchAction::OpenPty,
            LaunchPhase::RawMode => LaunchAction::EnterRawMode,
            LaunchPhase::Fork => LaunchAction::Fork,
            LaunchPhase::CloseSlave => LaunchAction::CloseSlave,
            LaunchPhase::Parent => LaunchAction::RunParent,
            LaunchPhase::CloseMaster => LaunchAction::CloseMaster,
            LaunchPhase::Child => LaunchAction::RunChild,
            LaunchPhase::ReleasePty => LaunchAction::ReleasePty,
            LaunchPhase::Restore => LaunchAction::RestoreTerminal,
            LaunchPhase::Exit => LaunchAction::Exit(self.code),
            LaunchPhase::Abandon => LaunchAction::Abandon(self.code),
        }
    }
}

/// One step of the run: the state that follows `state` once the caller
/// reports `event`.
pub fn advance(state: Launch, event: LaunchEvent) -> (next: Launch)
    ensures
        next == state.next(event),
{
    let failed = Launch { phase: LaunchPhase::ReleasePty, code: EXIT_FAILURE };
    match state.phase {
        LaunchPhase::Report => match event {
            LaunchEvent::Step(Outcome::Done) => Launch { phase: LaunchPhase::Exit, code: EXIT_SUCCESS },
            LaunchEvent::Step(Outcome::Failed(_)) => Launch {
                phase: LaunchPhase::Exit,
                code: EXIT_FAILURE,
            },
            _ => state,
        },
        LaunchPhase::Guard => match event {
            LaunchEvent::Step(Outcome::Done) => Launch { phase: LaunchPhase::OpenPty, code: state.code },
            LaunchEvent::Step(Outcome::Failed(_)) => Launch {
                phase: LaunchPhase::Exit,
                code: EXIT_FAILURE,
            },
            _ => state,
        },
        LaunchPhase::OpenPty => match event {
            LaunchEvent::Step(Outcome::Done) => Launch { phase: LaunchPhase::RawMode, code: state.code },
            LaunchEvent::Step(Outcome::Failed(_)) => Launch {
                phase: LaunchPhase::Restore,
                code: EXIT_FAILURE,
            },
            _ => state,
        },
        LaunchPhase::RawMode => match event {
            LaunchEvent::Step(Outcome::Done) => Launch { phase: LaunchPhase::Fork, code: state.code },
            LaunchEvent::Step(Outcome::Failed(_)) => failed,
            _ => state,
        },
        LaunchPhase::Fork => match event {
            LaunchEvent::Forked(Side::Parent) => Launch {
                phase: LaunchPhase::CloseSlave,
                code: state.code,
            },
            LaunchEvent::Forked(Side::Child) => Launch {
                phase: LaunchPhase::CloseMaster,
                code: state.code,
            },
            LaunchEvent::Step(Outcome::Failed(errno)) => Launch {
                phase: LaunchPhase::ReleasePty,
                code: errno,
            },
            _ => state,
        },
        LaunchPhase::CloseSlave => match event {
            LaunchEvent::Step(Outcome::Done) => Launch { phase: LaunchPhase::Parent, code: state.code },
            LaunchEvent::Step(Outcome::Failed(_)) => failed,
            _ => state,
        },
        LaunchPhase::Parent => match event {
            LaunchEvent::Step(Outcome::Done) => Launch {
                phase: LaunchPhase::ReleasePty,
                code: EXIT_SUCCESS,
            },
            LaunchEvent::Step(Outcome::Failed(_)) => failed,
            _ => state,
        },
        LaunchPhase::CloseMaster => match event {
            LaunchEvent::Step(Outcome::Done) => Launch { phase: LaunchPhase::Child, code: state.code },
            LaunchEvent::Step(Outcome::Failed(_)) => failed,
            _ => state,
        },
        LaunchPhase::Child => match event {
            LaunchEvent::ChildStopped(ChildFailure::Replace(errno)) => Launch {
                phase: LaunchPhase::Abandon,
                code: errno,
            },
            LaunchEvent::ChildStopped(ChildFailure::Setup(_)) => failed,
            _ => state,
        },
        LaunchPhase::ReleasePty => match event {
            LaunchEvent::Step(_) => Launch { phase: LaunchPhase::Restore, code: state.code },
            _ => state,
        },
        LaunchPhase::Restore => match event {
            LaunchEvent::Step(_) => Launch { phase: LaunchPhase::Exit, code: state.code },
            _ => state,
        },
        LaunchPhase::Exit => state,
        LaunchPhase::Abandon => state,
    }
}

/// How often a snapshot of the terminal was taken along `events`.
pub open spec fn snapshots(start: Launch, events: Seq<LaunchEvent>) -> nat
    decreases events.len(),
{
    if events.len() == 0 {
        0
    } else {
        let taken: nat = if start.run(events.drop_last()).phase == LaunchPhase::Guard
            && events.last() == LaunchEvent::Step(Outcome::Done) {
            1
        } else {
            0
        };
        snapshots(start, events.drop_last()) + taken
    }
}

/// How often the terminal was restored from a snapshot along `events`,
/// whether or not the restoring worked.
pub open spec fn restorations(start: Launch, events: Seq<LaunchEvent>) -> nat
    decreases events.len(),
{
    if events.len() == 0 {
        0
    } else {
        let restored: nat = if start.run(events.drop_last()).phase == LaunchPhase::Restore
            && events.last() is Step {
            1
        } else {
            0
        };
        restorations(start, events.drop_last()) + restored
    }
}

proof fn lemma_guard_accounted(in_session: bool, events: Seq<LaunchEvent>)
    ensures
        ({
            let start = Launch::initial(in_session);
            let phase = start.run(events).phase;
            let held: nat = if phase.holds_guard() || phase == LaunchPhase::Restore {
                1
            } else {
                0
            };
            &&& snapshots(start, events) == restorations(start, events) + held
            &&& snapshots(start, events) <= 1
            &&& phase == LaunchPhase::Guard ==> snapshots(start, events) == 0
            &&& in_session ==> phase == LaunchPhase::Report || phase == LaunchPhase::Exit
        }),
    decreases events.len(),
{
    if events.len() > 0 {
        lemma_guard_accounted(in_session, events.drop_last());
    }
}

/// On every way to the exit, whatever is reported to the run and whether
/// it ends well or not, the terminal is restored exactly as often as a
/// snapshot of it was taken, and that is once at most.
pub proof fn lemma_exit_restores_terminal(in_session: bool, events: Seq<LaunchEvent>)
    requires
        Launch::initial(in_session).run(events).phase == LaunchPhase::Exit,
    ensures
        restorations(Launch::initial(in_session), events) == snapshots(
            Launch::initial(in_session),
            events,
        ),
        snapshots(Launch::initial(in_session), events) <= 1,
{
    lemma_guard_accounted(in_session, events);
}

/// While a guard is held, the run does not come to the exit in one step,
/// except as a child whose program could not be started: to leave, it has
/// to restore the terminal first.
pub proof fn lemma_guard_bars_exit(state: Launch, event: LaunchEvent)
    requires
        state.phase.holds_guard(),
    ensures
        state.next(event).phase != LaunchPhase::Exit,
        state.next(event).phase == LaunchPhase::Abandon && state.phase != LaunchPhase::Abandon
            ==> state.phase == LaunchPhase::Child && event is ChildStopped,
{
}

/// After the fork each side gives up the end of the pseudo-terminal that
/// is the other's, before it does anything else: the session runs only
/// once the slave is closed, and the child takes its steps only once the
/// master is closed.
pub proof fn lemma_each_side_keeps_one_end(state: Launch, event: LaunchEvent)
    ensures
        state.phase == LaunchPhase::Fork && event == LaunchEvent::Forked(Side::Parent)
            ==> state.next(event).request() == LaunchAction::CloseSlave,
        state.phase == LaunchPhase::Fork && event == LaunchEvent::Forked(Side::Child)
            ==> state.next(event).request() == LaunchAction::CloseMaster,
        state.next(event).phase == LaunchPhase::Parent && state.phase != LaunchPhase::Parent
            ==> state.phase == LaunchPhase::CloseSlave && event == LaunchEvent::Step(Outcome::Done),
        state.next(event).phase == LaunchPhase::Child && state.phase != LaunchPhase::Child
            ==> state.phase == LaunchPhase::CloseMaster && event == LaunchEvent::Step(Outcome::Done),
{
}

/// A process that finds itself inside a session reports that session and
/// exits.  Whatever is reported to it, it asks for nothing else: no guard,
/// no pseudo-terminal, no fork, no session.  Once the report is written,
/// the exit code is zero.
pub proof fn lemma_nested_run_only_reports(events: Seq<LaunchEvent>)
    ensures
        Launch::initial(true).request() == LaunchAction::Report,
        Launch::initial(true).next(LaunchEvent::Step(Outcome::Done)).request() == LaunchAction::Exit(
            EXIT_SUCCESS,
        ),
        ({
            let end = Launch::initial(true).run(events);
            end.request() == LaunchAction::Report || end.request() is Exit
        }),
{
    lemma_guard_accounted(true, events);
}

} // verus!
