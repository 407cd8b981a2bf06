//! The relay at the heart of a session: one blocking poll over four
//! sources, then a turn for each source that is ready.
//!
//! The loop is a state machine.  Its state names the one request it waits
//! on ([`EventLoop::action`]); the caller carries the request out and hands
//! the result to [`event_loop`], which gives the next state.

use vstd::prelude::*;
use crate::Outcome;

verus! {

/// Most bytes asked for in one read.
pub const READ_CAPACITY: usize = 1024;

/// A source whose bytes are passed on.
#[derive(Clone, Copy, Debug, PartialEq, Eq, Structural)]
pub enum Stream {
    /// The invoking terminal's input.
    Stdin,
    /// The master side of the pseudo-terminal.
    Master,
    /// The injection pipe.
    Pipe,
}

/// Where bytes are written.
#[derive(Clone, Copy, Debug, PartialEq, Eq, Structural)]
pub enum Sink {
    /// The master side of the pseudo-terminal: input of the session.
    Master,
    /// The invoking terminal's output.
    Stdout,
}

/// The sources that still await their turn in the current wake-up.
#[derive(Clone, Copy, Debug, PartialEq, Eq, Structural)]
pub struct Readiness {
    pub stdin: bool,
    pub master: bool,
    pub pipe: bool,
    /// The read end of the resize bridge.
    pub resize: bool,
}

/// How a poll ended.
#[derive(Clone, Copy, Debug, PartialEq, Eq, Structural)]
pub enum PollOutcome {
    /// The poll returned `count` descriptors with events; `ready` tells
    /// which sources have input.
    Returned { count: usize, ready: Readiness },
    /// A signal interrupted the poll.
    Interrupted,
    /// The poll failed with this error number.
    Failed(i32),
}

/// How a read ended.
#[derive(Clone, Copy, Debug, PartialEq, Eq, Structural)]
pub enum ReadOutcome {
    /// The read put this many bytes at the start of its buffer.
    Bytes(usize),
    /// The read failed with this error number.
    Failed(i32),
}

/// What the caller reports back to the loop.
#[derive(Clone, Copy, Debug, PartialEq, Eq, Structural)]
pub enum LoopEvent {
    /// Answers [`LoopAction::Poll`].
    Polled(PollOutcome),
    /// Answers [`LoopAction::Pause`]: a signal arrived.
    Resumed,
    /// Answers [`LoopAction::Read`] and [`LoopAction::Drain`].
    ReadDone(ReadOutcome),
    /// Answers [`LoopAction::Write`].
    WriteDone(Outcome),
    /// Answers [`LoopAction::ApplyWindowSize`], whether or not the size
    /// could be queried and applied.
    Resized,
}

/// What the loop waits on.
#[derive(Clone, Copy, Debug, PartialEq, Eq, Structural)]
pub enum LoopPhase {
    Poll,
    Pause,
    Read(Stream),
    Write { from: Stream, len: usize },
    /// Emptying the resize bridge; `seen` tells whether this wake-up has
    /// taken a byte out of it yet.
    Drain { seen: bool },
    Resize,
    Finished(Outcome),
}

/// What the loop asks its caller to do next.
#[derive(Clone, Copy, Debug, PartialEq, Eq, Structural)]
pub enum LoopAction {
    /// Block, without a timeout, until one of the four sources has input.
    Poll,
    /// Block until a signal arrives.
    Pause,
    /// Read up to `capacity` bytes from `stream` into that stream's buffer.
    Read { stream: Stream, capacity: usize },
    /// Write the first `len` bytes of the buffer of `from` to `to`, all of
    /// them, and flush `to` at once where `flush` is set.
    Write { from: Stream, to: Sink, len: usize, flush: bool },
    /// Read up to `capacity` bytes from the resize bridge and drop them.
    Drain { capacity: usize },
    /// Query the terminal's size and apply it to the pseudo-terminal;
    /// a failure of either is not reported.
    ApplyWindowSize,
    /// Leave the loop with this result.
    Finish(Outcome),
}

/// The state of the relay.
#[derive(Clone, Copy, Debug, PartialEq, Eq, Structural)]
pub struct EventLoop {
    pub phase: LoopPhase,
    /// Sources reported ready by the last poll that have not had their
    /// turn yet.
    pub ready: Readiness,
}

impl Stream {
    /// Where the bytes of this stream go.
    pub open spec fn sink(self) -> Sink {
        match self {
            Stream::Stdin => Sink::Master,
            Stream::Master => Sink::Stdout,
            Stream::Pipe => Sink::Master,
        }
    }

    /// Whether a zero-length read of this stream ends the session.
    pub open spec fn ends_session(self) -> bool {
        self != Stream::Pipe
    }
}

impl Readiness {
    /// No source is ready.
    pub open spec fn none() -> Readiness {
        Readiness { stdin: false, master: false, pipe: false, resize: false }
    }
}

/// Gives the turn to the first source in `ready`, in the order stdin,
/// master, pipe, resize bridge, and takes it out of the set; polls again
/// when none is left.
pub open spec fn serve(ready: Readiness) -> EventLoop {
    if ready.stdin {
        EventLoop { phase: LoopPhase::Read(Stream::Stdin), ready: Readiness { stdin: false, ..ready } }
    } else if ready.master {
        EventLoop { phase: LoopPhase::Read(Stream::Master), ready: Readiness { master: false, ..ready } }
    } else if ready.pipe {
        EventLoop { phase: LoopPhase::Read(Stream::Pipe), ready: Readiness { pipe: false, ..ready } }
    } else if ready.resize {
        EventLoop { phase: LoopPhase::Drain { seen: false }, ready: Readiness { resize: false, ..ready } }
    } else {
        EventLoop { phase: LoopPhase::Poll, ready }
    }
}

impl EventLoop {
    /// The loop before its first poll.
    pub open spec fn initial() -> EventLoop {
        EventLoop { phase: LoopPhase::Poll, ready: Readiness::none() }
    }

    /// The loop in `phase`, with the same sources left to serve.
    pub open spec fn at(self, phase: LoopPhase) -> EventLoop {
        EventLoop { phase, ready: self.ready }
    }

    /// The request that this state waits on.
    pub open spec fn request(self) -> LoopAction {
        match self.phase {
            LoopPhase::Poll => LoopAction::Poll,
            LoopPhase::Pause => LoopAction::Pause,
            LoopPhase::Read(stream) => LoopAction::Read { stream, capacity: READ_CAPACITY },
            LoopPhase::Write { from, len } => LoopAction::Write {
                from,
                to: from.sink(),
                len,
                flush: from == Stream::Master,
            },
            LoopPhase::Drain { seen } => LoopAction::Drain { capacity: READ_CAPACITY },
            LoopPhase::Resize => LoopAction::ApplyWindowSize,
            LoopPhase::Finished(outcome) => LoopAction::Finish(outcome),
        }
    }

    /// The state after `event`.  An event that does not answer the request
    /// of this state leaves the state as it is.
    pub open spec fn next(self, event: LoopEvent) -> EventLoop {
        match (self.phase, event) {
            (LoopPhase::Poll, LoopEvent::Polled(PollOutcome::Returned { count, ready })) => {
                if count == 0 {
                    EventLoop { phase: LoopPhase::Pause, ready: Readiness::none() }
                } else {
                    serve(ready)
                }
            },
            (LoopPhase::Poll, LoopEvent::Polled(PollOutcome::Interrupted)) => self,
            (LoopPhase::Poll, LoopEvent::Polled(PollOutcome::Failed(errno))) => self.at(
                LoopPhase::Finished(Outcome::Failed(errno)),
            ),
            (LoopPhase::Pause, LoopEvent::Resumed) => self.at(LoopPhase::Poll),
            (LoopPhase::Read(stream), LoopEvent::ReadDone(ReadOutcome::Bytes(len))) => {
                if len > 0 {
                    self.at(LoopPhase::Write { from: stream, len })
                } else if stream.ends_session() {
                    self.at(LoopPhase::Finished(Outcome::Done))
                } else {
                    serve(self.ready)
                }
            },
            (LoopPhase::Read(_), LoopEvent::ReadDone(ReadOutcome::Failed(errno))) => self.at(
                LoopPhase::Finished(Outcome::Failed(errno)),
            ),
            (LoopPhase::Write { .. }, LoopEvent::WriteDone(Outcome::Done)) => serve(self.ready),
            (LoopPhase::Write { .. }, LoopEvent::WriteDone(Outcome::Failed(errno))) => self.at(
                LoopPhase::Finished(Outcome::Failed(errno)),
            ),
            (LoopPhase::Drain { seen }, LoopEvent::ReadDone(outcome)) => {
                if outcome matches ReadOutcome::Bytes(len) && len > 0 {
                    self.at(LoopPhase::Drain { seen: true })
                } else if seen {
                    self.at(LoopPhase::Resize)
                } else {
                    serve(self.ready)
                }
            },
            (LoopPhase::Resize, LoopEvent::Resized) => serve(self.ready),
            _ => self,
        }
    }
}

/// Gives the turn to the first source that is left in `ready`.
fn turn(ready: Readiness) -> (next: EventLoop)
    ensures
        next == serve(ready),
{
    if ready.stdin {
        EventLoop {
            phase: LoopPhase::Read(Stream::Stdin),
            ready: Readiness { stdin: false, master: ready.master, pipe: ready.pipe, resize: ready.resize },
        }
    } else if ready.master {
        EventLoop {
            phase: LoopPhase::Read(Stream::Master),
            ready: Readiness { stdin: ready.stdin, master: false, pipe: ready.pipe, resize: ready.resize },
        }
    } else if ready.pipe {
        EventLoop {
            phase: LoopPhase::Read(Stream::Pipe),
            ready: Readiness { stdin: ready.stdin, master: ready.master, pipe: false, resize: ready.resize },
        }
    } else if ready.resize {
        EventLoop {
            phase: LoopPhase::Drain { seen: false },
            ready: Readiness { stdin: ready.stdin, master: ready.master, pipe: ready.pipe, resize: false },
        }
    } else {
        EventLoop { phase: LoopPhase::Poll, ready }
    }
}

impl EventLoop {
    /// The loop before its first poll.
    pub fn new() -> (state: EventLoop)
        ensures
            state == EventLoop::initial(),
    {
        EventLoop {
            phase: LoopPhase::Poll,
            ready: Readiness { stdin: false, master: false, pipe: false, resize: false },
        }
    }

    /// What the caller is to do in this state.
    pub fn action(&self) -> (action: LoopAction)
        ensures
            action == self.request(),
    {
        match self.phase {
            LoopPhase::Poll => LoopAction::Poll,
            LoopPhase::Pause => LoopAction::Pause,
            LoopPhase::Read(stream) => LoopAction::Read { stream, capacity: READ_CAPACITY },
            LoopPhase::Write { from, len } => {
                let (to, flush) = match from {
                    Stream::Stdin => (Sink::Master, false),
                    Stream::Master => (Sink::Stdout, true),
                    Stream::Pipe => (Sink::Master, false),
                };
                LoopAction::Write { from, to, len, flush }
            },
            LoopPhase::Drain { seen: _ } => LoopAction::Drain { capacity: READ_CAPACITY },
            LoopPhase::Resize => LoopAction::ApplyWindowSize,
            LoopPhase::Finished(outcome) => LoopAction::Finish(outcome),
        }
    }

    /// The loop in `phase`, with the same sources left to serve.
    fn moved_to(&self, phase: LoopPhase) -> (next: EventLoop)
        ensures
            next == self.at(phase),
    {
        EventLoop { phase, ready: self.ready }
    }
}

/// One step of the relay: the state that follows `state` once the caller
/// reports `event`.
pub fn event_loop(state: EventLoop, event: LoopEvent) -> (next: EventLoop)
    ensures
        next == state.next(event),
{
    match state.phase {
        LoopPhase::Poll => match event {
            LoopEvent::Polled(PollOutcome::Returned { count, ready }) => {
                if count == 0 {
                    EventLoop {
                        phase: LoopPhase::Pause,
                        ready: Readiness { stdin: false, master: false, pipe: false, resize: false },
                    }
                } else {
                    turn(ready)
                }
            },
            LoopEvent::Polled(PollOutcome::Failed(errno)) => state.moved_to(
                LoopPhase::Finished(Outcome::Failed(errno)),
            ),
            _ => state,
        },
        LoopPhase::Pause => match event {
            LoopEvent::Resumed => state.moved_to(LoopPhase::Poll),
            _ => state,
        },
        LoopPhase::Read(stream) => match event {
            LoopEvent::ReadDone(ReadOutcome::Bytes(len)) => {
                if len > 0 {
                    state.moved_to(LoopPhase::Write { from: stream, len })
                } else {
                    match stream {
                        Stream::Pipe => turn(state.ready),
                        _ => state.moved_to(LoopPhase::Finished(Outcome::Done)),
                    }
                }
            },
            LoopEvent::ReadDone(ReadOutcome::Failed(errno)) => state.moved_to(
                LoopPhase::Finished(Outcome::Failed(errno)),
            ),
            _ => state,
        },
        LoopPhase::Write { from: _, len: _ } => match event {
            LoopEvent::WriteDone(Outcome::Done) => turn(state.ready),
            LoopEvent::WriteDone(Outcome::Failed(errno)) => state.moved_to(
                LoopPhase::Finished(Outcome::Failed(errno)),
            ),
            _ => state,
        },
        LoopPhase::Drain { seen } => match event {
            LoopEvent::ReadDone(outcome) => {
                let took_bytes = match outcome {
                    ReadOutcome::Bytes(len) => len > 0,
                    ReadOutcome::Failed(_) => false,
                };
                if took_bytes {
                    state.moved_to(LoopPhase::Drain { seen: true })
                } else if seen {
                    state.moved_to(LoopPhase::Resize)
                } else {
                    turn(state.ready)
                }
            },
            _ => state,
        },
        LoopPhase::Resize => match event {
            LoopEvent::Resized => turn(state.ready),
            _ => state,
        },
        LoopPhase::Finished(_) => state,
    }
}

/// Whether `stream` is among the sources of `ready`.
pub open spec fn awaits(ready: Readiness, stream: Stream) -> bool {
    match stream {
        Stream::Stdin => ready.stdin,
        Stream::Master => ready.master,
        Stream::Pipe => ready.pipe,
    }
}

/// A source gets its turn only if the last poll found it ready, and with
/// its turn it leaves the set of those that wait: between two polls no
/// source is served twice.
pub proof fn lemma_one_turn_each(state: EventLoop, event: LoopEvent, stream: Stream)
    requires
        state.next(event).phase == LoopPhase::Read(stream),
        state.next(event) != state,
    ensures
        !awaits(state.next(event).ready, stream),
        match event {
            LoopEvent::Polled(PollOutcome::Returned { count, ready }) => awaits(ready, stream),
            _ => awaits(state.ready, stream),
        },
        forall|other: Stream|
            awaits(state.next(event).ready, other) ==> match event {
                LoopEvent::Polled(PollOutcome::Returned { count, ready }) => awaits(ready, other),
                _ => awaits(state.ready, other),
            },
{
}

/// No source that is ready is passed over: the loop polls again only when
/// none is left to serve, and until then it reads, or drains the bridge.
pub proof fn lemma_no_ready_source_is_skipped(ready: Readiness)
    ensures
        serve(ready).phase == LoopPhase::Poll <==> ready == Readiness::none(),
        serve(ready).phase is Poll || serve(ready).phase is Read || serve(ready).phase is Drain,
        serve(ready).phase matches LoopPhase::Read(stream) ==> awaits(ready, stream),
        serve(ready).phase is Drain ==> ready.resize,
{
}

/// Whether `event`, arriving in `state`, is a zero-length read of a
/// stream whose end is the end of the session.
pub open spec fn closes_input(state: EventLoop, event: LoopEvent) -> bool {
    &&& state.phase matches LoopPhase::Read(stream)
    &&& stream.ends_session()
    &&& event == LoopEvent::ReadDone(ReadOutcome::Bytes(0))
}

/// The error number with which `event`, arriving in `state`, breaks the
/// loop: a failed poll, a failed read of a stream, or a failed write.
pub open spec fn fatal(state: EventLoop, event: LoopEvent) -> Option<i32> {
    match (state.phase, event) {
        (LoopPhase::Poll, LoopEvent::Polled(PollOutcome::Failed(errno))) => Some(errno),
        (LoopPhase::Read(_), LoopEvent::ReadDone(ReadOutcome::Failed(errno))) => Some(errno),
        (LoopPhase::Write { .. }, LoopEvent::WriteDone(Outcome::Failed(errno))) => Some(errno),
        _ => None,
    }
}

impl EventLoop {
    /// The state reached from this one through `events`, in order.
    pub open spec fn run(self, events: Seq<LoopEvent>) -> EventLoop
        decreases events.len(),
    {
        if events.len() == 0 {
            self
        } else {
            self.run(events.drop_last()).next(events.last())
        }
    }
}

/// A running loop finishes in one step in two ways only: with success on a
/// zero-length read of stdin or of the master, and with an error number on
/// a failed poll, a failed read of a stream or a failed write.
pub proof fn lemma_ways_out(state: EventLoop, event: LoopEvent, outcome: Outcome)
    requires
        !(state.phase is Finished),
    ensures
        state.next(event).phase == LoopPhase::Finished(outcome) <==> match outcome {
            Outcome::Done => closes_input(state, event),
            Outcome::Failed(errno) => fatal(state, event) == Some(errno),
        },
{
}

/// A zero-length read of the injection pipe, as seen whenever no writer
/// holds the pipe open, does not end the session: the loop goes on to the
/// sources that are left.
pub proof fn lemma_pipe_silence_is_no_end(state: EventLoop)
    requires
        state.phase == LoopPhase::Read(Stream::Pipe),
    ensures
        state.next(LoopEvent::ReadDone(ReadOutcome::Bytes(0))) == serve(state.ready),
        !(serve(state.ready).phase is Finished),
{
}

/// Whatever is reported to the loop, and however often the writers of the
/// injection pipe come and go, a loop that has finished with success has
/// seen a zero-length read of stdin or of the master.
pub proof fn lemma_success_needs_closed_input(start: EventLoop, events: Seq<LoopEvent>)
    requires
        !(start.phase is Finished),
        start.run(events).phase == LoopPhase::Finished(Outcome::Done),
    ensures
        exists|i: int|
            0 <= i < events.len() && closes_input(#[trigger] start.run(events.take(i)), events[i]),
    decreases events.len(),
{
    let shorter = events.drop_last();
    let before = start.run(shorter);
    if before.phase is Finished {
        lemma_success_needs_closed_input(start, shorter);
        let i = choose|i: int|
            0 <= i < shorter.len() && closes_input(#[trigger] start.run(shorter.take(i)), shorter[i]);
        assert(shorter.take(i) =~= events.take(i));
    } else {
        lemma_ways_out(before, events.last(), Outcome::Done);
    }
}

/// One report to the loop as an onlooker sees it: the event, and the bytes
/// that the read behind it left in its buffer.
pub struct Observed {
    pub event: LoopEvent,
    pub buffer: Seq<u8>,
}

impl Observed {
    /// The buffer holds as many bytes as the read reports.
    pub open spec fn consistent(self) -> bool {
        self.event matches LoopEvent::ReadDone(ReadOutcome::Bytes(len)) ==> self.buffer.len() == len
    }
}

/// The events of `trace`, without the buffers.
pub open spec fn events_of(trace: Seq<Observed>) -> Seq<LoopEvent> {
    trace.map_values(|seen: Observed| seen.event)
}

/// The bytes that the reads of `stream` took in along `trace`, in order.
pub open spec fn delivered(start: EventLoop, trace: Seq<Observed>, stream: Stream) -> Seq<u8>
    decreases trace.len(),
{
    if trace.len() == 0 {
        Seq::empty()
    } else {
        let before = start.run(events_of(trace.drop_last()));
        let last = trace.last();
        let taken = if before.phase == LoopPhase::Read(stream) && last.event matches LoopEvent::ReadDone(
            ReadOutcome::Bytes(_),
        ) {
            last.buffer
        } else {
            Seq::empty()
        };
        delivered(start, trace.drop_last(), stream) + taken
    }
}

/// The bytes of `stream` that the loop asked to have written to `sink`
/// along `trace`, in order.
pub open spec fn forwarded(start: EventLoop, trace: Seq<Observed>, stream: Stream, sink: Sink) -> Seq<
    u8,
>
    decreases trace.len(),
{
    if trace.len() == 0 {
        Seq::empty()
    } else {
        let before = start.run(events_of(trace.drop_last()));
        let last = trace.last();
        let passed_on = match before.next(last.event).request() {
            LoopAction::Write { from, to, len, flush } => if before.phase is Read && from == stream
                && to == sink {
                last.buffer.take(len as int)
            } else {
                Seq::empty()
            },
            _ => Seq::empty(),
        };
        forwarded(start, trace.drop_last(), stream, sink) + passed_on
    }
}

/// Every byte read from a stream is passed on unchanged, in the order
/// read, to the sink of that stream and to no other: what comes out of
/// the injection pipe, and what is typed on stdin, becomes input of the
/// session, and what the session prints reaches stdout.
pub proof fn lemma_bytes_pass_unchanged(start: EventLoop, trace: Seq<Observed>, stream: Stream, sink: Sink)
    requires
        forall|i: int| 0 <= i < trace.len() ==> (#[trigger] trace[i]).consistent(),
    ensures
        forwarded(start, trace, stream, sink) == if sink == stream.sink() {
            delivered(start, trace, stream)
        } else {
            Seq::<u8>::empty()
        },
    decreases trace.len(),
{
    if trace.len() > 0 {
        lemma_bytes_pass_unchanged(start, trace.drop_last(), stream, sink);
    }
}

/// How often the loop asked along `events` to have the window size
/// queried and applied.
pub open spec fn resizes(start: EventLoop, events: Seq<LoopEvent>) -> nat
    decreases events.len(),
{
    if events.len() == 0 {
        0
    } else {
        let before = start.run(events.drop_last());
        let asked: nat = if before.phase != LoopPhase::Resize && before.next(events.last()).phase
            == LoopPhase::Resize {
            1
        } else {
            0
        };
        resizes(start, events.drop_last()) + asked
    }
}

/// Reads of the resize bridge that take `counts[0]`, `counts[1]`, ...
/// bytes out of it.
pub open spec fn drain_reads(counts: Seq<usize>) -> Seq<LoopEvent> {
    counts.map_values(|count: usize| LoopEvent::ReadDone(ReadOutcome::Bytes(count)))
}

proof fn lemma_draining_asks_nothing(state: EventLoop, counts: Seq<usize>)
    requires
        state.phase is Drain,
        counts.len() >= 1,
        forall|i: int| 0 <= i < counts.len() ==> counts[i] > 0,
    ensures
        state.run(drain_reads(counts)) == state.at(LoopPhase::Drain { seen: true }),
        resizes(state, drain_reads(counts)) == 0,
    decreases counts.len(),
{
    let events = drain_reads(counts);
    let shorter = counts.drop_last();
    assert(events.drop_last() =~= drain_reads(shorter));
    if shorter.len() >= 1 {
        lemma_draining_asks_nothing(state, shorter);
    } else {
        assert(resizes(state, events.drop_last()) == 0);
    }
}

/// However many bytes a burst of resize signals has left in the bridge,
/// and in however many reads they come out, the loop asks for the window
/// size to be queried and applied once: after the read that finds the
/// bridge empty.  It then goes on to the sources that are left.
pub proof fn lemma_resize_burst_applies_once(state: EventLoop, counts: Seq<usize>, empty: ReadOutcome)
    requires
        state.phase == (LoopPhase::Drain { seen: false }),
        counts.len() >= 1,
        forall|i: int| 0 <= i < counts.len() ==> counts[i] > 0,
        !(empty matches ReadOutcome::Bytes(len) && len > 0),
    ensures
        ({
            let events = drain_reads(counts).push(LoopEvent::ReadDone(empty)).push(LoopEvent::Resized);
            &&& resizes(state, events) == 1
            &&& state.run(events) == serve(state.ready)
        }),
{
    let drained = drain_reads(counts);
    let emptied = drained.push(LoopEvent::ReadDone(empty));
    let events = emptied.push(LoopEvent::Resized);
    lemma_draining_asks_nothing(state, counts);
    assert(emptied.drop_last() =~= drained);
    assert(events.drop_last() =~= emptied);
    assert(resizes(state, emptied) == 1);
}

/// A resize bridge that gives no byte to the first read of a wake-up
/// causes no resize.
pub proof fn lemma_empty_bridge_applies_nothing(state: EventLoop, empty: ReadOutcome)
    requires
        state.phase == (LoopPhase::Drain { seen: false }),
        !(empty matches ReadOutcome::Bytes(len) && len > 0),
    ensures
        state.next(LoopEvent::ReadDone(empty)) == serve(state.ready),
        serve(state.ready).phase != LoopPhase::Resize,
{
}

} // verus!
