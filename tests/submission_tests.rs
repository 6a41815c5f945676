use jup_swap::error::JupSwapError;
use jup_swap::submission::{Phase, SubmissionController, SubmissionError, SubmitAction, SubmitEvent};

/// Drives a controller against a simulated chain; counts the submissions
/// that the controller asks for.
fn drive(
    max_retries: u64,
    simulation: Option<&str>,
    mut send: impl FnMut(u64) -> Option<Result<String, String>>,
) -> (SubmitAction, u64) {
    let mut c = SubmissionController::new(max_retries);
    let mut submissions = 0u64;
    let mut action = c.step(SubmitEvent::Simulated(simulation.map(|s| s.to_string())));
    loop {
        match action {
            SubmitAction::Submit => {
                submissions += 1;
                let event = match send(submissions) {
                    Some(outcome) => SubmitEvent::Sent(outcome),
                    None => SubmitEvent::TimedOut,
                };
                action = c.step(event);
            }
            SubmitAction::Wait => panic!("controller waits for nothing"),
            done => {
                assert!(c.is_finished());
                return (done, submissions);
            }
        }
    }
}

#[test]
fn simulation_error_prevents_submission() {
    let (action, submissions) = drive(3, Some("InstructionError"), |_| Some(Ok("sig".to_string())));
    assert_eq!(submissions, 0);
    assert_eq!(action, SubmitAction::Fail(SubmissionError::Simulation("InstructionError".to_string())));
}

#[test]
fn rejected_controller_ignores_later_events() {
    let mut c = SubmissionController::new(1);
    c.step(SubmitEvent::Simulated(Some("bad".to_string())));
    assert_eq!(c.phase, Phase::Rejected);
    assert_eq!(c.step(SubmitEvent::Simulated(None)), SubmitAction::Wait);
    assert_eq!(c.step(SubmitEvent::Sent(Err("x".to_string()))), SubmitAction::Wait);
    assert_eq!(c.phase, Phase::Rejected);
}

#[test]
fn clean_simulation_then_confirmed() {
    let (action, submissions) = drive(2, None, |_| Some(Ok("5sig".to_string())));
    assert_eq!(submissions, 1);
    assert_eq!(action, SubmitAction::Done("5sig".to_string()));
}

#[test]
fn retries_are_bounded() {
    let (action, submissions) = drive(2, None, |n| Some(Err(format!("dropped {n}"))));
    assert_eq!(submissions, 3);
    assert_eq!(action, SubmitAction::Fail(SubmissionError::Submission("dropped 3".to_string())));
}

#[test]
fn retry_then_success() {
    let (action, submissions) = drive(2, None, |n| if n < 2 { Some(Err("busy".to_string())) } else { Some(Ok("ok".to_string())) });
    assert_eq!(submissions, 2);
    assert_eq!(action, SubmitAction::Done("ok".to_string()));
}

#[test]
fn timeout_ends_submission() {
    let (action, submissions) = drive(5, None, |_| None);
    assert_eq!(submissions, 1);
    assert_eq!(action, SubmitAction::Fail(SubmissionError::TimedOut));
}

#[test]
fn zero_retries_means_one_submission() {
    let (action, submissions) = drive(0, None, |_| Some(Err("no".to_string())));
    assert_eq!(submissions, 1);
    assert_eq!(action, SubmitAction::Fail(SubmissionError::Submission("no".to_string())));
}

#[test]
fn timeout_before_simulation_is_ignored() {
    let mut c = SubmissionController::new(1);
    assert_eq!(c.step(SubmitEvent::TimedOut), SubmitAction::Wait);
    assert_eq!(c.phase, Phase::Simulating);
}

#[test]
fn swap_error_messages() {
    assert_eq!(JupSwapError::Swap("no route".to_string()).message(), "Swap Error: no route");
    assert_eq!(JupSwapError::Unknown("?".to_string()).message(), "Unknown Error: ?");
}
