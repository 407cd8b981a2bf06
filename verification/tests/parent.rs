use std::collections::BTreeSet;

use wye::config::Config;
use wye::parent::{process, Parent, ParentAction, ParentEvent, ParentPhase};
use wye::Outcome;

fn start(session_number: u32) -> Parent {
    Parent::new(&Config { session_number, shell: None, program: None, in_session: false })
}

fn run(start: Parent, events: &[ParentEvent]) -> Parent {
    let mut state = start;
    for event in events {
        state = process(state, *event);
    }
    state
}

const DONE: ParentEvent = ParentEvent::Step(Outcome::Done);

fn failed(errno: i32) -> ParentEvent {
    ParentEvent::Step(Outcome::Failed(errno))
}

fn path() -> String {
    "/tmp/wye-7".to_string()
}

/// The requests of a session that is told `events`, up to its end or the
/// end of the events.
fn requests(events: &[ParentEvent]) -> Vec<ParentAction> {
    let mut state = start(7);
    let mut asked = vec![state.action()];
    for event in events {
        state = process(state, *event);
        asked.push(state.action());
    }
    asked
}

#[test]
fn session_without_trouble() {
    let asked = requests(&[ParentEvent::Found(false), DONE, DONE, DONE, DONE, DONE, DONE, DONE]);
    assert_eq!(
        asked,
        vec![
            ParentAction::Probe { path: path() },
            ParentAction::MakePipe { path: path(), mode: 0o700 },
            ParentAction::OpenPipe { path: path(), read_only: true, non_blocking: true },
            ParentAction::ArmResize,
            ParentAction::Tell { line: "\rWye new session: 7, /tmp/wye-7\r\n".to_string() },
            ParentAction::Relay,
            ParentAction::RemoveFile { path: path() },
            ParentAction::Tell { line: "\rWye closed session: 7\r\n".to_string() },
            ParentAction::Finish(Outcome::Done),
        ]
    );
}

#[test]
fn stale_file_is_removed_before_the_pipe_is_made() {
    let asked = requests(&[ParentEvent::Found(true), DONE]);
    assert_eq!(
        asked,
        vec![
            ParentAction::Probe { path: path() },
            ParentAction::RemoveFile { path: path() },
            ParentAction::MakePipe { path: path(), mode: 0o700 },
        ]
    );
}

#[test]
fn stale_file_that_stays_ends_the_session() {
    let end = run(start(7), &[ParentEvent::Found(true), failed(13)]);
    assert!(end.is_finished());
    assert_eq!(end.action(), ParentAction::Finish(Outcome::Failed(13)));
}

#[test]
fn pipe_that_cannot_be_made_ends_the_session() {
    let end = run(start(7), &[ParentEvent::Found(false), failed(17)]);
    assert_eq!(end.action(), ParentAction::Finish(Outcome::Failed(17)));
}

#[test]
fn failure_after_the_pipe_is_made_removes_the_pipe() {
    for steps_before in 0..3 {
        let mut events = vec![ParentEvent::Found(false), DONE];
        for _ in 0..steps_before {
            events.push(DONE);
        }
        events.push(failed(24));
        let state = run(start(7), &events);
        assert_eq!(state.action(), ParentAction::RemoveFile { path: path() });
        assert_eq!(process(state, DONE).action(), ParentAction::Finish(Outcome::Failed(24)));
        assert_eq!(process(state, failed(2)).action(), ParentAction::Finish(Outcome::Failed(24)));
    }
}

#[test]
fn pipe_is_removed_when_the_relay_failed() {
    let relaying = run(start(7), &[ParentEvent::Found(false), DONE, DONE, DONE, DONE]);
    assert_eq!(relaying.action(), ParentAction::Relay);
    let removing = process(relaying, failed(5));
    assert_eq!(removing.action(), ParentAction::RemoveFile { path: path() });
    let telling = process(removing, DONE);
    assert_eq!(
        telling.action(),
        ParentAction::Tell { line: "\rWye closed session: 7\r\n".to_string() }
    );
    assert_eq!(process(telling, DONE).action(), ParentAction::Finish(Outcome::Failed(5)));
}

#[test]
fn clean_relay_ends_the_session_without_error() {
    let relaying = run(start(0), &[ParentEvent::Found(true), DONE, DONE, DONE, DONE, DONE]);
    assert_eq!(relaying.action(), ParentAction::Relay);
    let removing = process(relaying, DONE);
    assert_eq!(removing.action(), ParentAction::RemoveFile { path: "/tmp/wye-0".to_string() });
    let end = run(removing, &[DONE, DONE]);
    assert!(end.is_finished());
    assert_eq!(end.action(), ParentAction::Finish(Outcome::Done));
}

#[test]
fn failed_removal_after_the_relay_is_the_result() {
    let relaying = run(start(7), &[ParentEvent::Found(false), DONE, DONE, DONE, DONE]);
    let end = run(relaying, &[DONE, failed(30)]);
    assert_eq!(end.action(), ParentAction::Finish(Outcome::Failed(30)));
    let end = run(relaying, &[failed(5), failed(30)]);
    assert_eq!(end.action(), ParentAction::Finish(Outcome::Failed(30)));
}

#[test]
fn failed_closing_line_is_the_result() {
    let relaying = run(start(7), &[ParentEvent::Found(false), DONE, DONE, DONE, DONE]);
    let end = run(relaying, &[DONE, DONE, failed(32)]);
    assert_eq!(end.action(), ParentAction::Finish(Outcome::Failed(32)));
}

#[test]
fn finished_session_stays_finished() {
    let end = run(start(7), &[ParentEvent::Found(false), failed(17)]);
    for event in [DONE, failed(1), ParentEvent::Found(true), ParentEvent::Found(false)] {
        assert_eq!(process(end, event), end);
    }
}

#[test]
fn session_ignores_events_that_answer_nothing() {
    let probing = start(7);
    assert_eq!(process(probing, DONE), probing);
    assert_eq!(process(probing, failed(3)), probing);
    let making = process(probing, ParentEvent::Found(false));
    assert_eq!(making.phase, ParentPhase::Create);
    assert_eq!(process(making, ParentEvent::Found(true)), making);
}

/// Carries out the requests of a session on a set of paths that stands
/// for the file system; `relayed` is how the relay finishes.
fn live(session: u32, files: &mut BTreeSet<String>, relayed: Outcome) -> (Outcome, Vec<String>) {
    let mut state = start(session);
    let mut told = Vec::new();
    for _ in 0..100 {
        let event = match state.action() {
            ParentAction::Probe { path } => ParentEvent::Found(files.contains(&path)),
            ParentAction::RemoveFile { path } => {
                if files.remove(&path) {
                    DONE
                } else {
                    failed(2)
                }
            }
            ParentAction::MakePipe { path, mode } => {
                assert_eq!(mode, 0o700);
                if files.insert(path) {
                    DONE
                } else {
                    failed(17)
                }
            }
            ParentAction::OpenPipe { path, read_only, non_blocking } => {
                assert!(read_only && non_blocking);
                if files.contains(&path) {
                    DONE
                } else {
                    failed(2)
                }
            }
            ParentAction::ArmResize => DONE,
            ParentAction::Tell { line } => {
                told.push(line);
                DONE
            }
            ParentAction::Relay => ParentEvent::Step(relayed),
            ParentAction::Finish(outcome) => return (outcome, told),
        };
        state = process(state, event);
    }
    panic!("the session did not end");
}

#[test]
fn clean_shutdown_leaves_no_pipe() {
    let mut files = BTreeSet::new();
    files.insert("/tmp/wye-3".to_string());
    let (outcome, told) = live(4, &mut files, Outcome::Done);
    assert_eq!(outcome, Outcome::Done);
    assert!(!files.contains("/tmp/wye-4"));
    assert!(files.contains("/tmp/wye-3"));
    assert_eq!(told, vec!["\rWye new session: 4, /tmp/wye-4\r\n", "\rWye closed session: 4\r\n"]);
}

#[test]
fn broken_relay_leaves_no_pipe_either() {
    let mut files = BTreeSet::new();
    let (outcome, told) = live(0, &mut files, Outcome::Failed(5));
    assert_eq!(outcome, Outcome::Failed(5));
    assert!(files.is_empty());
    assert_eq!(told.len(), 2);
}

#[test]
fn stale_file_gives_way_to_the_pipe() {
    let mut files = BTreeSet::new();
    files.insert("/tmp/wye-9".to_string());
    let (outcome, _) = live(9, &mut files, Outcome::Done);
    assert_eq!(outcome, Outcome::Done);
    assert!(files.is_empty());
}
