//! The parent's side of the fork: the life of a session, from the making
//! of its injection pipe to the removal of that pipe.
//!
//! The session is a state machine.  Its state names the one request it
//! waits on ([`Parent::action`]); the caller carries the request out and
//! hands the result to [`process`], which gives the next state.  Once the
//! pipe exists, no way to the end leads around its removal.

use vstd::prelude::*;
use crate::config::Config;
use crate::log::{closed_session_line, log_closed_session, log_opened_session, opened_session_line};
use crate::pipe::{pipe_path, pipe_path_of, PIPE_MODE};
use crate::Outcome;

verus! {

/// What the session waits on.
#[derive(Clone, Copy, Debug, PartialEq, Eq, Structural)]
pub enum ParentPhase {
    /// Whether a file stands where the pipe is to be.
    Probe,
    /// The removal of that stale file.
    ClearStale,
    /// The making of the pipe.
    Create,
    /// The opening of the pipe for reading.
    Open,
    /// The arming of the resize bridge.
    Arm,
    /// The line that tells of the new session.
    Announce,
    /// The relay, until it finishes.
    Relay,
    /// The removal of the pipe; `relayed` tells whether the relay ran.
    Remove { relayed: bool },
    /// The line that tells of the closed session.
    AnnounceClosed,
    /// Nothing: the session is over.
    Finished,
}

/// What the caller reports back to the session.
#[derive(Clone, Copy, Debug, PartialEq, Eq, Structural)]
pub enum ParentEvent {
    /// Answers [`ParentAction::Probe`]: whether a file is there.
    Found(bool),
    /// Answers every other request: how it ended.  For
    /// [`ParentAction::Relay`], how the relay finished.
    Step(Outcome),
}

/// What the session asks its caller to do next.
#[derive(Clone, Debug, PartialEq, Eq)]
pub enum ParentAction {
    /// Find out whether a file exists at `path`.
    Probe { path: String },
    /// Remove the file at `path`.
    RemoveFile { path: String },
    /// Make a named pipe at `path` with the permission bits `mode`.
    MakePipe { path: String, mode: u32 },
    /// Open the pipe at `path` for reading only where `read_only` is set,
    /// and without blocking where `non_blocking` is set: neither the lack
    /// of a writer nor its leaving may hold the relay up.
    OpenPipe { path: String, read_only: bool, non_blocking: bool },
    /// Make the pipe of the resize bridge, publish its write end, install
    /// the handler of the resize signal, and make its read end
    /// non-blocking.
    ArmResize,
    /// Write `line` to the terminal.
    Tell { line: String },
    /// Run the relay over stdin, the master, the pipe and the bridge.
    Relay,
    /// End the session with this result.
    Finish(Outcome),
}

/// [`ParentAction`] as plain values.
pub enum ParentActionView {
    Probe { path: Seq<char> },
    RemoveFile { path: Seq<char> },
    MakePipe { path: Seq<char>, mode: u32 },
    OpenPipe { path: Seq<char>, read_only: bool, non_blocking: bool },
    ArmResize,
    Tell { line: Seq<char> },
    Relay,
    Finish(Outcome),
}

impl View for ParentAction {
    type V = ParentActionView;

    open spec fn view(&self) -> ParentActionView {
        match self {
            ParentAction::Probe { path } => ParentActionView::Probe { path: path@ },
            ParentAction::RemoveFile { path } => ParentActionView::RemoveFile { path: path@ },
            ParentAction::MakePipe { path, mode } => ParentActionView::MakePipe {
                path: path@,
                mode: *mode,
            },
            ParentAction::OpenPipe { path, read_only, non_blocking } => ParentActionView::OpenPipe {
                path: path@,
                read_only: *read_only,
                non_blocking: *non_blocking,
            },
            ParentAction::ArmResize => ParentActionView::ArmResize,
            ParentAction::Tell { line } => ParentActionView::Tell { line: line@ },
            ParentAction::Relay => ParentActionView::Relay,
            ParentAction::Finish(outcome) => ParentActionView::Finish(*outcome),
        }
    }
}

/// The state of a session.
#[derive(Clone, Copy, Debug, PartialEq, Eq, Structural)]
pub struct Parent {
    /// Number of the session.
    pub session: u32,
    pub phase: ParentPhase,
    /// What the session ends with unless a later step fails.
    pub result: Outcome,
}

impl Parent {
    /// The session with number `session` before its first step.
    pub open spec fn initial(session: u32) -> Parent {
        Parent { session, phase: ParentPhase::Probe, result: Outcome::Done }
    }

    /// This session in `phase`.
    pub open spec fn at(self, phase: ParentPhase) -> Parent {
        Parent { session: self.session, phase, result: self.result }
    }

    /// This session at its end, with `result`.
    pub open spec fn ended(self, result: Outcome) -> Parent {
        Parent { session: self.session, phase: ParentPhase::Finished, result }
    }

    /// This session on its way out after a failed step: the pipe is
    /// removed, and `result` stands.
    pub open spec fn unwinding(self, result: Outcome) -> Parent {
        Parent { session: self.session, phase: ParentPhase::Remove { relayed: false }, result }
    }

    /// The request that this state waits on.
    pub open spec fn request(self) -> ParentActionView {
        let path = pipe_path_of(self.session);
        match self.phase {
            ParentPhase::Probe => ParentActionView::Probe { path },
            ParentPhase::ClearStale => ParentActionView::RemoveFile { path },
            ParentPhase::Create => ParentActionView::MakePipe { path, mode: PIPE_MODE },
            ParentPhase::Open => ParentActionView::OpenPipe {
                path,
                read_only: true,
                non_blocking: true,
            },
            ParentPhase::Arm => ParentActionView::ArmResize,
            ParentPhase::Announce => ParentActionView::Tell {
                line: opened_session_line(self.session, path),
            },
            ParentPhase::Relay => ParentActionView::Relay,
            ParentPhase::Remove { relayed } => ParentActionView::RemoveFile { path },
            ParentPhase::AnnounceClosed => ParentActionView::Tell {
                line: closed_session_line(self.session),
            },
            ParentPhase::Finished => ParentActionView::Finish(self.result),
        }
    }

    /// The state after `event`.  An event that does not answer the request
    /// of this state leaves the state as it is.
    ///
    /// A stale file is removed before the pipe is made.  A step that fails
    /// before the pipe exists ends the session with its error; one that
    /// fails later leads to the removal of the pipe first.  After the
    /// relay the pipe is removed, however the relay finished, and the
    /// closure is told.  The session ends with the relay's result, unless
    /// the removal or the telling failed: then with that error.
    pub open spec fn next(self, event: ParentEvent) -> Parent {
        match (self.phase, event) {
            (ParentPhase::Probe, ParentEvent::Found(found)) => if found {
                self.at(ParentPhase::ClearStale)
            } else {
                self.at(ParentPhase::Create)
            },
            (ParentPhase::ClearStale, ParentEvent::Step(Outcome::Done)) => self.at(
                ParentPhase::Create,
            ),
            (ParentPhase::ClearStale, ParentEvent::Step(failed)) => self.ended(failed),
            (ParentPhase::Create, ParentEvent::Step(Outcome::Done)) => self.at(ParentPhase::Open),
            (ParentPhase::Create, ParentEvent::Step(failed)) => self.ended(failed),
            (ParentPhase::Open, ParentEvent::Step(Outcome::Done)) => self.at(ParentPhase::Arm),
            (ParentPhase::Open, ParentEvent::Step(failed)) => self.unwinding(failed),
            (ParentPhase::Arm, ParentEvent::Step(Outcome::Done)) => self.at(ParentPhase::Announce),
            (ParentPhase::Arm, ParentEvent::Step(failed)) => self.unwinding(failed),
            (ParentPhase::Announce, ParentEvent::Step(Outcome::Done)) => self.at(
                ParentPhase::Relay,
            ),
            (ParentPhase::Announce, ParentEvent::Step(failed)) => self.unwinding(failed),
            (ParentPhase::Relay, ParentEvent::Step(finished)) => Parent {
                session: self.session,
                phase: ParentPhase::Remove { relayed: true },
                result: finished,
            },
            (ParentPhase::Remove { relayed }, ParentEvent::Step(Outcome::Done)) => if relayed {
                self.at(ParentPhase::AnnounceClosed)
            } else {
                self.ended(self.result)
            },
            (ParentPhase::Remove { relayed }, ParentEvent::Step(failed)) => if relayed {
                self.ended(failed)
            } else {
                self.ended(self.result)
            },
            (ParentPhase::AnnounceClosed, ParentEvent::Step(Outcome::Done)) => self.ended(
                self.result,
            ),
            (ParentPhase::AnnounceClosed, ParentEvent::Step(failed)) => self.ended(failed),
            _ => self,
        }
    }

    /// The state reached from this one through `events`, in order.
    pub open spec fn run(self, events: Seq<ParentEvent>) -> Parent
        decreases events.len(),
    {
        if events.len() == 0 {
            self
        } else {
            self.run(events.drop_last()).next(events.last())
        }
    }

    /// The session of `config` before its first step.
    pub fn new(config: &Config) -> (state: Parent)
        ensures
            state == Parent::initial(config.session_number),
    {
        Parent { session: config.session_number, phase: ParentPhase::Probe, result: Outcome::Done }
    }

    /// What the caller is to do in this state.
    pub fn action(&self) -> (action: ParentAction)
        ensures
            action@ == self.request(),
    {
        match self.phase {
            ParentPhase::Probe => ParentAction::Probe { path: pipe_path(self.session) },
            ParentPhase::ClearStale => ParentAction::RemoveFile { path: pipe_path(self.session) },
            ParentPhase::Create => ParentAction::MakePipe {
                path: pipe_path(self.session),
                mode: PIPE_MODE,
            },
            ParentPhase::Open => ParentAction::OpenPipe {
                path: pipe_path(self.session),
                read_only: true,
                non_blocking: true,
            },
            ParentPhase::Arm => ParentAction::ArmResize,
            ParentPhase::Announce => {
                let path = pipe_path(self.session);
                ParentAction::Tell { line: log_opened_session(self.session, path.as_str()) }
            },
            ParentPhase::Relay => ParentAction::Relay,
            ParentPhase::Remove { relayed: _ } => ParentAction::RemoveFile {
                path: pipe_path(self.session),
            },
            ParentPhase::AnnounceClosed => ParentAction::Tell {
                line: log_closed_session(self.session),
            },
            ParentPhase::Finished => ParentAction::Finish(self.result),
        }
    }

    /// Whether the session is over.
    pub fn is_finished(&self) -> (finished: bool)
        ensures
            finished == (self.phase == ParentPhase::Finished),
    {
        match self.phase {
            ParentPhase::Finished => true,
            _ => false,
        }
    }

    fn moved_to(&self, phase: ParentPhase) -> (next: Parent)
        ensures
            next == self.at(phase),
    {
        Parent { session: self.session, phase, result: self.result }
    }

    fn ended_with(&self, result: Outcome) -> (next: Parent)
        ensures
            next == self.ended(result),
    {
        Parent { session: self.session, phase: ParentPhase::Finished, result }
    }

    fn unwinding_with(&self, result: Outcome) -> (next: Parent)
        ensures
            next == self.unwinding(result),
    {
        Parent { session: self.session, phase: ParentPhase::Remove { relayed: false }, result }
    }
}

/// One step of the session: the state that follows `state` once the
/// caller reports `event`.
pub fn process(state: Parent, event: ParentEvent) -> (next: Parent)
    ensures
        next == state.next(event),
{
    match event {
        ParentEvent::Found(found) => match state.phase {
            ParentPhase::Probe => if found {
                state.moved_to(ParentPhase::ClearStale)
            } else {
                state.moved_to(ParentPhase::Create)
            },
            _ => state,
        },
        ParentEvent::Step(outcome) => {
            let done = match outcome {
                Outcome::Done => true,
                Outcome::Failed(_) => false,
            };
            match state.phase {
                ParentPhase::Probe => state,
                ParentPhase::ClearStale => if done {
                    state.moved_to(ParentPhase::Create)
                } else {
                    state.ended_with(outcome)
                },
                ParentPhase::Create => if done {
                    state.moved_to(ParentPhase::Open)
                } else {
                    state.ended_with(outcome)
                },
                ParentPhase::Open => if done {
                    state.moved_to(ParentPhase::Arm)
                } else {
                    state.unwinding_with(outcome)
                },
                ParentPhase::Arm => if done {
                    state.moved_to(ParentPhase::Announce)
                } else {
                    state.unwinding_with(outcome)
                },
                ParentPhase::Announce => if done {
                    state.moved_to(ParentPhase::Relay)
                } else {
                    state.unwinding_with(outcome)
                },
                ParentPhase::Relay => Parent {
                    session: state.session,
                    phase: ParentPhase::Remove { relayed: true },
                    result: outcome,
                },
                ParentPhase::Remove { relayed } => if relayed {
                    if done {
                        state.moved_to(ParentPhase::AnnounceClosed)
                    } else {
                        state.ended_with(outcome)
                    }
                } else {
                    state.ended_with(state.result)
                },
                ParentPhase::AnnounceClosed => if done {
                    state.ended_with(state.result)
                } else {
                    state.ended_with(outcome)
                },
                ParentPhase::Finished => state,
            }
        },
    }
}

/// Whether the pipe's file is there after `events`, where `before` tells
/// whether a file was there at the start: a probe shows what is there, the
/// making of the pipe puts it there, and a removal that succeeds takes it
/// away.
pub open spec fn pipe_left(start: Parent, events: Seq<ParentEvent>, before: bool) -> bool
    decreases events.len(),
{
    if events.len() == 0 {
        before
    } else {
        match (start.run(events.drop_last()).phase, events.last()) {
            (ParentPhase::Probe, ParentEvent::Found(found)) => found,
            (ParentPhase::ClearStale, ParentEvent::Step(Outcome::Done)) => false,
            (ParentPhase::Create, ParentEvent::Step(Outcome::Done)) => true,
            (ParentPhase::Remove { .. }, ParentEvent::Step(Outcome::Done)) => false,
            _ => pipe_left(start, events.drop_last(), before),
        }
    }
}

/// What holds of a session and its pipe at every step.
spec fn pipe_accounted(state: Parent, left: bool) -> bool {
    match state.phase {
        ParentPhase::Probe => true,
        ParentPhase::ClearStale => left,
        ParentPhase::Create => !left,
        ParentPhase::Open | ParentPhase::Arm | ParentPhase::Announce | ParentPhase::Relay => left,
        ParentPhase::Remove { relayed } => left && (!relayed ==> state.result is Failed),
        ParentPhase::AnnounceClosed => !left,
        ParentPhase::Finished => left ==> state.result is Failed,
    }
}

proof fn lemma_pipe_accounted(session: u32, events: Seq<ParentEvent>, before: bool)
    ensures
        pipe_accounted(
            Parent::initial(session).run(events),
            pipe_left(Parent::initial(session), events, before),
        ),
    decreases events.len(),
{
    if events.len() > 0 {
        lemma_pipe_accounted(session, events.drop_last(), before);
    }
}

/// The pipe is made only where no file stands: a stale file was removed,
/// or the probe found none.  So no session makes a second pipe beside one
/// that is there.
pub proof fn lemma_pipe_made_on_clear_path(session: u32, events: Seq<ParentEvent>, before: bool)
    requires
        Parent::initial(session).run(events).phase == ParentPhase::Create,
    ensures
        !pipe_left(Parent::initial(session), events, before),
{
    lemma_pipe_accounted(session, events, before);
}

/// A session that is over and reports no failure has left no pipe behind,
/// whatever was reported to it on the way: where the pipe's file is still
/// there at the end, the session ends with an error.
pub proof fn lemma_no_pipe_left_without_failure(session: u32, events: Seq<ParentEvent>, before: bool)
    requires
        Parent::initial(session).run(events).phase == ParentPhase::Finished,
        pipe_left(Parent::initial(session), events, before),
    ensures
        Parent::initial(session).run(events).result is Failed,
{
    lemma_pipe_accounted(session, events, before);
}

/// The session's part in a clean shutdown.  When the relay has finished,
/// however it did, the session asks for the removal of the very file it
/// made its pipe at.  Where the relay finished well, and the removal and
/// the telling of the closure work, no pipe is left and the session ends
/// without an error.
pub proof fn lemma_relay_end_removes_pipe(state: Parent, finished: Outcome)
    requires
        state.phase == ParentPhase::Relay,
    ensures
        state.at(ParentPhase::Create).request() == (ParentActionView::MakePipe {
            path: pipe_path_of(state.session),
            mode: PIPE_MODE,
        }),
        state.next(ParentEvent::Step(finished)).request() == (ParentActionView::RemoveFile {
            path: pipe_path_of(state.session),
        }),
        ({
            let events = seq![
                ParentEvent::Step(Outcome::Done),
                ParentEvent::Step(Outcome::Done),
                ParentEvent::Step(Outcome::Done),
            ];
            &&& state.run(events).request() == ParentActionView::Finish(Outcome::Done)
            &&& !pipe_left(state, events, true)
        }),
{
    let events = seq![
        ParentEvent::Step(Outcome::Done),
        ParentEvent::Step(Outcome::Done),
        ParentEvent::Step(Outcome::Done),
    ];
    let two = events.drop_last();
    let one = two.drop_last();
    assert(state.run(one.drop_last()) == state);
    assert(state.run(one).phase == (ParentPhase::Remove { relayed: true }));
    assert(state.run(two).phase == ParentPhase::AnnounceClosed);
    assert(!pipe_left(state, two, true));
}

} // verus!
