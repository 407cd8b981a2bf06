use wye::child::{
    failure, first_step, next_step, process, resolve_program, ChildFailure, ChildNext, ChildStep,
};
use wye::config::Config;
use wye::Outcome;

fn config(session_number: u32, shell: Option<&str>, program: Option<&str>) -> Config {
    Config {
        session_number,
        shell: shell.map(|text| text.to_string()),
        program: program.map(|text| text.to_string()),
        in_session: false,
    }
}

#[test]
fn program_on_the_command_line_comes_first() {
    assert_eq!(resolve_program(&config(0, Some("/bin/zsh"), Some("htop"))), "htop");
    assert_eq!(resolve_program(&config(0, None, Some("htop"))), "htop");
    assert_eq!(resolve_program(&config(0, Some("/bin/zsh"), Some(""))), "");
}

#[test]
fn shell_comes_second() {
    assert_eq!(resolve_program(&config(0, Some("/bin/zsh"), None)), "/bin/zsh");
}

#[test]
fn fallback_shell_comes_last() {
    assert_eq!(resolve_program(&config(0, None, None)), "/bin/sh");
}

#[test]
fn child_takes_its_steps_in_order() {
    let steps = process(&config(7, Some("/bin/zsh"), None));
    assert_eq!(
        steps,
        vec![
            ChildStep::NewSession,
            ChildStep::ClaimTerminal,
            ChildStep::BindStdin,
            ChildStep::BindStdout,
            ChildStep::BindStderr,
            ChildStep::CloseSlave,
            ChildStep::PublishMarker { name: "WYE".to_string(), value: "7".to_string() },
            ChildStep::Replace {
                program: "/bin/zsh".to_string(),
                args: vec!["/bin/zsh".to_string()],
            },
        ]
    );
}

#[test]
fn child_publishes_its_session_number() {
    for number in [0u32, 10, 4096, u32::MAX] {
        let steps = process(&config(number, None, None));
        assert_eq!(
            steps[6],
            ChildStep::PublishMarker { name: "WYE".to_string(), value: number.to_string() }
        );
        assert_eq!(
            steps[7],
            ChildStep::Replace { program: "/bin/sh".to_string(), args: vec!["/bin/sh".to_string()] }
        );
        assert_eq!(steps.len(), 8);
    }
}

#[test]
fn failed_replacement_is_told_apart() {
    let steps = process(&config(1, None, Some("no-such-program")));
    for step in &steps[..7] {
        assert_eq!(failure(step, 13), ChildFailure::Setup(13));
    }
    assert_eq!(failure(&steps[7], 2), ChildFailure::Replace(2));
}

/// The positions of the steps that a child takes whose steps end as
/// `outcomes` tell, and where it stops.
fn walk(steps: &Vec<ChildStep>, outcomes: &[Outcome]) -> (Vec<usize>, ChildNext) {
    let mut taken = Vec::new();
    let mut next = first_step(steps);
    for outcome in outcomes {
        match next {
            ChildNext::Take(index) => {
                taken.push(index);
                next = next_step(steps, index, *outcome);
            }
            _ => break,
        }
    }
    (taken, next)
}

#[test]
fn child_sets_out_with_its_first_step() {
    let steps = process(&config(1, None, None));
    assert_eq!(first_step(&steps), ChildNext::Take(0));
    assert_eq!(first_step(&Vec::new()), ChildNext::Over);
}

#[test]
fn success_leads_to_the_step_that_follows() {
    let steps = process(&config(1, None, None));
    for index in 0..7 {
        assert_eq!(next_step(&steps, index, Outcome::Done), ChildNext::Take(index + 1));
    }
    assert_eq!(next_step(&steps, 7, Outcome::Done), ChildNext::Over);
    assert_eq!(next_step(&steps, 8, Outcome::Done), ChildNext::Over);
    assert_eq!(next_step(&steps, usize::MAX, Outcome::Done), ChildNext::Over);
}

#[test]
fn failure_is_the_end() {
    let steps = process(&config(1, None, None));
    for index in 0..7 {
        assert_eq!(
            next_step(&steps, index, Outcome::Failed(13)),
            ChildNext::Stop(ChildFailure::Setup(13))
        );
    }
    assert_eq!(
        next_step(&steps, 7, Outcome::Failed(2)),
        ChildNext::Stop(ChildFailure::Replace(2))
    );
    assert_eq!(
        next_step(&steps, 8, Outcome::Failed(2)),
        ChildNext::Stop(ChildFailure::Setup(2))
    );
}

#[test]
fn failed_setup_publishes_no_marker_and_starts_no_program() {
    let steps = process(&config(4, None, Some("top")));
    for failing in 0..6 {
        let mut outcomes = vec![Outcome::Done; failing];
        outcomes.push(Outcome::Failed(5));
        outcomes.extend(vec![Outcome::Done; 4]);
        let (taken, end) = walk(&steps, &outcomes);
        assert_eq!(taken, (0..=failing).collect::<Vec<usize>>());
        assert_eq!(end, ChildNext::Stop(ChildFailure::Setup(5)));
        for index in taken {
            assert!(!matches!(steps[index], ChildStep::PublishMarker { .. }));
            assert!(!matches!(steps[index], ChildStep::Replace { .. }));
        }
    }
}

#[test]
fn program_is_started_after_seven_successes() {
    let steps = process(&config(4, None, Some("top")));
    let (taken, end) = walk(&steps, &vec![Outcome::Done; 7]);
    assert_eq!(taken, vec![0, 1, 2, 3, 4, 5, 6]);
    assert_eq!(end, ChildNext::Take(7));
    let mut outcomes = vec![Outcome::Done; 7];
    outcomes.push(Outcome::Failed(2));
    let (taken, end) = walk(&steps, &outcomes);
    assert_eq!(taken.len(), 8);
    assert_eq!(end, ChildNext::Stop(ChildFailure::Replace(2)));
}
