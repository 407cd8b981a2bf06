//! The child's side of the fork: from a copy of the host to the program
//! that runs in the session.
//!
//! [`process`] lists the child's steps.  The caller takes the step that
//! [`first_step`] and [`next_step`] name, and no other: a step is taken
//! only if every step before it succeeded, and the first failure is the
//! end.

use vstd::prelude::*;
use crate::config::{texts_of, Config, ConfigView};
use crate::decimal::{decimal_digits, format_u32};
use crate::{Outcome, FALLBACK_SHELL, WYE_SESSION_VAR};

verus! {

/// One thing the child does on its way to the program.
#[derive(Clone, Debug, PartialEq, Eq)]
pub enum ChildStep {
    /// Start a session of its own, as its leader, without a controlling
    /// terminal.
    NewSession,
    /// Make the slave of the pseudo-terminal the controlling terminal.
    ClaimTerminal,
    /// Make the slave the standard input.
    BindStdin,
    /// Make the slave the standard output.
    BindStdout,
    /// Make the slave the standard error.
    BindStderr,
    /// Close the slave's own descriptor, now that the three standard
    /// streams stand for it.
    CloseSlave,
    /// Set the environment variable `name` to `value`.
    PublishMarker { name: String, value: String },
    /// Replace the process image by `program`, found along the search
    /// path, with `args` as its arguments, the program's own name first.
    Replace { program: String, args: Vec<String> },
}

/// [`ChildStep`] as plain values.
pub enum ChildStepView {
    NewSession,
    ClaimTerminal,
    BindStdin,
    BindStdout,
    BindStderr,
    CloseSlave,
    PublishMarker { name: Seq<char>, value: Seq<char> },
    Replace { program: Seq<char>, args: Seq<Seq<char>> },
}

impl View for ChildStep {
    type V = ChildStepView;

    open spec fn view(&self) -> ChildStepView {
        match self {
            ChildStep::NewSession => ChildStepView::NewSession,
            ChildStep::ClaimTerminal => ChildStepView::ClaimTerminal,
            ChildStep::BindStdin => ChildStepView::BindStdin,
            ChildStep::BindStdout => ChildStepView::BindStdout,
            ChildStep::BindStderr => ChildStepView::BindStderr,
            ChildStep::CloseSlave => ChildStepView::CloseSlave,
            ChildStep::PublishMarker { name, value } => ChildStepView::PublishMarker {
                name: name@,
                value: value@,
            },
            ChildStep::Replace { program, args } => ChildStepView::Replace {
                program: program@,
                args: texts_of(args@),
            },
        }
    }
}

/// How the child came to a stop short of the program.
#[derive(Clone, Copy, Debug, PartialEq, Eq, Structural)]
pub enum ChildFailure {
    /// A step before the replacement failed with this error number.
    Setup(i32),
    /// The replacement itself failed with this error number.
    Replace(i32),
}

/// The program that runs in the session: the one named on the command
/// line, else the user's shell, else the fallback shell.
pub open spec fn program_of(config: ConfigView) -> Seq<char> {
    match config.program {
        Some(program) => program,
        None => match config.shell {
            Some(shell) => shell,
            None => FALLBACK_SHELL@,
        },
    }
}

/// What the child does, in order.  Each step is taken only if all before
/// it succeeded.  The program gets no argument but its own name.
pub open spec fn child_steps(config: ConfigView) -> Seq<ChildStepView> {
    seq![
        ChildStepView::NewSession,
        ChildStepView::ClaimTerminal,
        ChildStepView::BindStdin,
        ChildStepView::BindStdout,
        ChildStepView::BindStderr,
        ChildStepView::CloseSlave,
        ChildStepView::PublishMarker {
            name: WYE_SESSION_VAR@,
            value: decimal_digits(config.session_number as nat),
        },
        ChildStepView::Replace { program: program_of(config), args: seq![program_of(config)] },
    ]
}

/// The views of a list of steps.
pub open spec fn steps_view(steps: Seq<ChildStep>) -> Seq<ChildStepView> {
    steps.map_values(|step: ChildStep| step@)
}

/// The program that runs in the session.
pub fn resolve_program(config: &Config) -> (program: String)
    ensures
        program@ == program_of(config@),
{
    match &config.program {
        Some(program) => program.clone(),
        None => match &config.shell {
            Some(shell) => shell.clone(),
            None => String::from_str(FALLBACK_SHELL),
        },
    }
}

/// The steps that take the child from the fork to the program: a session
/// and a controlling terminal of its own, the slave as its three standard
/// streams, the session marker in its environment, then the program in
/// its place.
pub fn process(config: &Config) -> (steps: Vec<ChildStep>)
    ensures
        steps_view(steps@) == child_steps(config@),
{
    let mut steps: Vec<ChildStep> = Vec::new();
    steps.push(ChildStep::NewSession);
    steps.push(ChildStep::ClaimTerminal);
    steps.push(ChildStep::BindStdin);
    steps.push(ChildStep::BindStdout);
    steps.push(ChildStep::BindStderr);
    steps.push(ChildStep::CloseSlave);
    steps.push(
        ChildStep::PublishMarker {
            name: String::from_str(WYE_SESSION_VAR),
            value: format_u32(config.session_number),
        },
    );
    let program = resolve_program(config);
    let mut args: Vec<String> = Vec::new();
    args.push(program.clone());
    assert(texts_of(args@) =~= seq![program_of(config@)]);
    steps.push(ChildStep::Replace { program, args });
    steps
}

/// What a failure of `step` with error number `errno` means for the
/// child: a failed replacement is told apart from a failure before it.
pub fn failure(step: &ChildStep, errno: i32) -> (failure: ChildFailure)
    ensures
        failure == if step@ is Replace {
            ChildFailure::Replace(errno)
        } else {
            ChildFailure::Setup(errno)
        },
{
    match step {
        ChildStep::Replace { program: _, args: _ } => ChildFailure::Replace(errno),
        _ => ChildFailure::Setup(errno),
    }
}

/// What the child does next.
#[derive(Clone, Copy, Debug, PartialEq, Eq, Structural)]
pub enum ChildNext {
    /// Take the step at this position of the list.
    Take(usize),
    /// Take no further step: the child has failed.
    Stop(ChildFailure),
    /// No step is left.  A child whose last step is the replacement never
    /// comes here: a replacement that succeeds reports nothing.
    Over,
}

/// What a failure of the step at position `taken` with error number
/// `errno` means for the child.
pub open spec fn failure_at(steps: Seq<ChildStepView>, taken: int, errno: i32) -> ChildFailure {
    if 0 <= taken < steps.len() && steps[taken] is Replace {
        ChildFailure::Replace(errno)
    } else {
        ChildFailure::Setup(errno)
    }
}

/// What the child does before it has taken any step: the first one.
pub open spec fn opening(steps: Seq<ChildStepView>) -> ChildNext {
    if steps.len() > 0 {
        ChildNext::Take(0)
    } else {
        ChildNext::Over
    }
}

/// What the child does once the step at position `taken` has ended with
/// `outcome`: after a failure nothing, after a success the step that
/// follows.
pub open spec fn following(steps: Seq<ChildStepView>, taken: int, outcome: Outcome) -> ChildNext {
    match outcome {
        Outcome::Failed(errno) => ChildNext::Stop(failure_at(steps, taken, errno)),
        Outcome::Done => if 0 <= taken && taken + 1 < steps.len() {
            ChildNext::Take((taken + 1) as usize)
        } else {
            ChildNext::Over
        },
    }
}

/// What the child does once its steps, taken in order from the first,
/// have ended as `outcomes` tell.  Outcomes reported after the child has
/// stopped change nothing.
pub open spec fn progress(steps: Seq<ChildStepView>, outcomes: Seq<Outcome>) -> ChildNext
    decreases outcomes.len(),
{
    if outcomes.len() == 0 {
        opening(steps)
    } else {
        match progress(steps, outcomes.drop_last()) {
            ChildNext::Take(taken) => following(steps, taken as int, outcomes.last()),
            stopped => stopped,
        }
    }
}

/// The step with which the child sets out.
pub fn first_step(steps: &Vec<ChildStep>) -> (next: ChildNext)
    ensures
        next == opening(steps_view(steps@)),
{
    if steps.len() > 0 {
        ChildNext::Take(0)
    } else {
        ChildNext::Over
    }
}

/// What the child does once the step at position `taken` of `steps` has
/// ended with `outcome`.  After a failure it stops with that failure, and
/// takes no step any more; after a success it takes the step that follows.
pub fn next_step(steps: &Vec<ChildStep>, taken: usize, outcome: Outcome) -> (next: ChildNext)
    ensures
        next == following(steps_view(steps@), taken as int, outcome),
{
    match outcome {
        Outcome::Failed(errno) => {
            if taken < steps.len() {
                ChildNext::Stop(failure(&steps[taken], errno))
            } else {
                ChildNext::Stop(ChildFailure::Setup(errno))
            }
        },
        Outcome::Done => {
            if taken < steps.len() && taken + 1 < steps.len() {
                ChildNext::Take(taken + 1)
            } else {
                ChildNext::Over
            }
        },
    }
}

/// A step is taken only if every step before it was taken and succeeded.
pub proof fn lemma_step_needs_all_before(steps: Seq<ChildStepView>, outcomes: Seq<Outcome>, at: usize)
    requires
        steps.len() <= usize::MAX,
        progress(steps, outcomes) == ChildNext::Take(at),
    ensures
        at == outcomes.len(),
        at < steps.len(),
        forall|i: int| 0 <= i < outcomes.len() ==> outcomes[i] == Outcome::Done,
    decreases outcomes.len(),
{
    if outcomes.len() > 0 {
        let earlier = outcomes.drop_last();
        match progress(steps, earlier) {
            ChildNext::Take(taken) => {
                lemma_step_needs_all_before(steps, earlier, taken);
                assert forall|i: int| 0 <= i < outcomes.len() implies outcomes[i]
                    == Outcome::Done by {
                    if i < earlier.len() {
                        assert(outcomes[i] == earlier[i]);
                    }
                }
            },
            _ => {},
        }
    }
}

/// The first failure is the end: once a step has failed, the child stops
/// with that failure, whatever is reported afterwards, and takes no step
/// behind the one that failed.
pub proof fn lemma_failed_step_ends_child(
    steps: Seq<ChildStepView>,
    outcomes: Seq<Outcome>,
    at: int,
    errno: i32,
)
    requires
        steps.len() <= usize::MAX,
        0 <= at < outcomes.len(),
        at < steps.len(),
        outcomes[at] == Outcome::Failed(errno),
        forall|i: int| 0 <= i < at ==> outcomes[i] == Outcome::Done,
    ensures
        progress(steps, outcomes) == ChildNext::Stop(failure_at(steps, at, errno)),
    decreases outcomes.len(),
{
    lemma_successes_lead_on(steps, outcomes.take(at));
    if outcomes.len() == at + 1 {
        assert(outcomes.drop_last() =~= outcomes.take(at));
    } else {
        let earlier = outcomes.drop_last();
        lemma_failed_step_ends_child(steps, earlier, at, errno);
    }
}

/// After as many successes as there are steps before it, a step has its
/// turn.
proof fn lemma_successes_lead_on(steps: Seq<ChildStepView>, outcomes: Seq<Outcome>)
    requires
        steps.len() <= usize::MAX,
        outcomes.len() < steps.len(),
        forall|i: int| 0 <= i < outcomes.len() ==> outcomes[i] == Outcome::Done,
    ensures
        progress(steps, outcomes) == ChildNext::Take(outcomes.len() as usize),
    decreases outcomes.len(),
{
    if outcomes.len() > 0 {
        lemma_successes_lead_on(steps, outcomes.drop_last());
    }
}

/// Where one of the steps before them fails, the child neither publishes
/// the session marker nor starts the program: it stops with that failure
/// as one of its setup.  Where the start of the program fails, it stops
/// with that failure as one of the replacement.
pub proof fn lemma_failed_setup_starts_nothing(
    config: ConfigView,
    outcomes: Seq<Outcome>,
    at: int,
    errno: i32,
)
    requires
        0 <= at < outcomes.len(),
        at < 8,
        outcomes[at] == Outcome::Failed(errno),
        forall|i: int| 0 <= i < at ==> outcomes[i] == Outcome::Done,
    ensures
        progress(child_steps(config), outcomes) == ChildNext::Stop(
            if at == 7 {
                ChildFailure::Replace(errno)
            } else {
                ChildFailure::Setup(errno)
            },
        ),
        forall|shorter: int|
            0 <= shorter <= outcomes.len() ==> (#[trigger] progress(
                child_steps(config),
                outcomes.take(shorter),
            ) matches ChildNext::Take(later) ==> later <= at),
{
    let steps = child_steps(config);
    lemma_failed_step_ends_child(steps, outcomes, at, errno);
    assert forall|shorter: int| 0 <= shorter <= outcomes.len() implies (#[trigger] progress(
        steps,
        outcomes.take(shorter),
    ) matches ChildNext::Take(later) ==> later <= at) by {
        if let ChildNext::Take(later) = progress(steps, outcomes.take(shorter)) {
            lemma_step_needs_all_before(steps, outcomes.take(shorter), later);
            if later > at {
                assert(outcomes.take(shorter)[at] == outcomes[at]);
            }
        }
    }
}

} // verus!
