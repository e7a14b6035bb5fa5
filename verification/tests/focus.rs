use window_raise::focus::{
    focus_command, AttemptOutcome, FocusCommand, FocusRetry, FocusStep, MAX_RETRIES,
    RETRY_DELAY_MS,
};

/// What a loop did when it was played against a list of outcomes.
#[derive(Debug, PartialEq)]
struct FocusPlayed {
    attempts: usize,
    sleeps: Vec<u64>,
    end: Option<Result<u8, ()>>,
}

/// Plays a fresh loop against `outcomes`, one outcome for each attempt,
/// until the loop ends or the outcomes run out.
fn play_focus(outcomes: &[AttemptOutcome]) -> FocusPlayed {
    let mut played = FocusPlayed { attempts: 0, sleeps: Vec::new(), end: None };
    let mut retry = FocusRetry::new();
    for outcome in outcomes {
        played.attempts += 1;
        match retry.on_outcome(*outcome) {
            FocusStep::Raised { attempts } => {
                played.end = Some(Ok(attempts));
                return played;
            }
            FocusStep::GaveUp => {
                played.end = Some(Err(()));
                return played;
            }
            FocusStep::Retry { next, delay_ms } => {
                played.sleeps.push(delay_ms);
                retry = next;
            }
        }
    }
    played
}

const FAILED: AttemptOutcome = AttemptOutcome::Exited { success: false };
const RAISED: AttemptOutcome = AttemptOutcome::Exited { success: true };

#[test]
fn retry_budget_constants() {
    assert_eq!(MAX_RETRIES, 10);
    assert_eq!(RETRY_DELAY_MS, 100);
}

#[test]
fn only_a_successful_exit_raises() {
    assert!(RAISED.is_raised());
    assert!(!FAILED.is_raised());
    assert!(!AttemptOutcome::SpawnFailed.is_raised());
    assert!(!AttemptOutcome::WaitFailed.is_raised());
}

#[test]
fn fresh_loop_has_no_failures() {
    assert_eq!(FocusRetry::new().failures(), 0);
}

#[test]
fn first_attempt_success_ends_the_loop_at_once() {
    assert_eq!(FocusRetry::new().on_outcome(RAISED), FocusStep::Raised { attempts: 1 });
    let played = play_focus(&[RAISED, FAILED, RAISED]);
    assert_eq!(played, FocusPlayed { attempts: 1, sleeps: vec![], end: Some(Ok(1)) });
}

#[test]
fn failed_attempt_is_retried_after_fixed_delay() {
    match FocusRetry::new().on_outcome(FAILED) {
        FocusStep::Retry { next, delay_ms } => {
            assert_eq!(delay_ms, 100);
            assert_eq!(next.failures(), 1);
        }
        other => panic!("expected a retry, got {:?}", other),
    }
}

#[test]
fn spawn_and_wait_errors_count_as_failed_attempts() {
    for outcome in [AttemptOutcome::SpawnFailed, AttemptOutcome::WaitFailed, FAILED] {
        match FocusRetry::new().on_outcome(outcome) {
            FocusStep::Retry { next, delay_ms } => {
                assert_eq!(delay_ms, RETRY_DELAY_MS);
                assert_eq!(next.failures(), 1);
            }
            other => panic!("expected a retry, got {:?}", other),
        }
    }
}

#[test]
fn succeeds_on_fourth_attempt() {
    let played = play_focus(&[FAILED, FAILED, FAILED, RAISED]);
    assert_eq!(played.attempts, 4);
    assert_eq!(played.end, Some(Ok(4)));
    assert_eq!(played.sleeps, vec![100, 100, 100]);
}

#[test]
fn succeeds_on_fourth_attempt_after_mixed_failures() {
    let played =
        play_focus(&[AttemptOutcome::SpawnFailed, AttemptOutcome::WaitFailed, FAILED, RAISED, RAISED]);
    assert_eq!(played, FocusPlayed { attempts: 4, sleeps: vec![100, 100, 100], end: Some(Ok(4)) });
}

#[test]
fn gives_up_after_eleven_failed_attempts() {
    let played = play_focus(&[FAILED; 11]);
    assert_eq!(played.attempts, 11);
    assert_eq!(played.end, Some(Err(())));
    assert_eq!(played.sleeps, vec![100; 10]);
}

#[test]
fn never_makes_a_twelfth_attempt() {
    let played = play_focus(&[FAILED; 40]);
    assert_eq!(played.attempts, 11);
    assert_eq!(played.end, Some(Err(())));
    let mut outcomes = vec![FAILED; 11];
    outcomes.push(RAISED);
    assert_eq!(play_focus(&outcomes), FocusPlayed { attempts: 11, sleeps: vec![100; 10], end: Some(Err(())) });
}

#[test]
fn succeeds_on_the_last_attempt_of_the_budget() {
    let mut outcomes = vec![FAILED; 10];
    outcomes.push(RAISED);
    let played = play_focus(&outcomes);
    assert_eq!(played, FocusPlayed { attempts: 11, sleeps: vec![100; 10], end: Some(Ok(11)) });
}

#[test]
fn loop_is_still_running_while_budget_lasts() {
    let played = play_focus(&[FAILED; 10]);
    assert_eq!(played, FocusPlayed { attempts: 10, sleeps: vec![100; 10], end: None });
}

#[test]
fn sleeps_only_between_attempts() {
    for failures in 0..=10usize {
        let mut outcomes = vec![FAILED; failures];
        outcomes.push(RAISED);
        let played = play_focus(&outcomes);
        assert_eq!(played.attempts, failures + 1);
        assert_eq!(played.sleeps, vec![100; failures]);
        assert_eq!(played.end, Some(Ok((failures + 1) as u8)));
    }
}

#[test]
fn failure_counter_grows_by_one_per_failed_attempt() {
    let mut retry = FocusRetry::new();
    for expected in 1..=10u8 {
        match retry.on_outcome(FAILED) {
            FocusStep::Retry { next, .. } => {
                assert_eq!(next.failures(), expected);
                retry = next;
            }
            other => panic!("expected a retry, got {:?}", other),
        }
    }
    assert_eq!(retry.on_outcome(FAILED), FocusStep::GaveUp);
}

#[test]
fn focus_command_names_program_flags_and_title() {
    let command = focus_command("My App");
    assert_eq!(command.program, "wmctrl");
    assert_eq!(command.args, vec!["-F", "-a", "My App"]);
}

#[test]
fn focus_command_keeps_title_as_one_argument() {
    assert_eq!(
        focus_command(""),
        FocusCommand { program: "wmctrl".to_string(), args: vec!["-F".to_string(), "-a".to_string(), String::new()] }
    );
    assert_eq!(focus_command("  Caf\u{e9} \"main\" -x  ").args, vec!["-F", "-a", "  Caf\u{e9} \"main\" -x  "]);
}
