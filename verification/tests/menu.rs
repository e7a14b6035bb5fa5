use window_raise::menu::{on_poll, MenuStep, POLL_DELAY_MS};

/// What a suppressor did when it was played against a list of answers.
#[derive(Debug, PartialEq)]
struct MenuPlayed {
    checks: usize,
    hides: usize,
    sleeps: Vec<u64>,
    stopped: bool,
}

/// Plays the suppressor against `polls`, one answer for each query, until
/// it stops or the answers run out.
fn play_menu(polls: &[Result<bool, &'static str>]) -> MenuPlayed {
    let mut played = MenuPlayed { checks: 0, hides: 0, sleeps: Vec::new(), stopped: false };
    for poll in polls {
        played.checks += 1;
        match on_poll(*poll) {
            MenuStep::Stop => {
                played.stopped = true;
                return played;
            }
            MenuStep::HideThenWait { delay_ms } => {
                played.hides += 1;
                played.sleeps.push(delay_ms);
            }
        }
    }
    played
}

#[test]
fn poll_delay_constant() {
    assert_eq!(POLL_DELAY_MS, 10);
}

#[test]
fn visible_menu_is_hidden_and_polled_again() {
    assert_eq!(on_poll::<()>(Ok(true)), MenuStep::HideThenWait { delay_ms: 10 });
}

#[test]
fn hidden_menu_stops_the_suppressor() {
    assert_eq!(on_poll::<()>(Ok(false)), MenuStep::Stop);
}

#[test]
fn failed_query_stops_the_suppressor() {
    assert_eq!(on_poll(Err("menu is gone")), MenuStep::Stop);
    assert_eq!(on_poll(Err(())), MenuStep::Stop);
}

#[test]
fn menu_hidden_from_the_start_is_checked_once() {
    let played = play_menu(&[Ok(false), Ok(true), Ok(true)]);
    assert_eq!(played, MenuPlayed { checks: 1, hides: 0, sleeps: vec![], stopped: true });
}

#[test]
fn menu_visible_twice_then_hidden() {
    let played = play_menu(&[Ok(true), Ok(true), Ok(false)]);
    assert_eq!(played, MenuPlayed { checks: 3, hides: 2, sleeps: vec![10, 10], stopped: true });
}

#[test]
fn query_error_ends_polling_of_visible_menu() {
    let played = play_menu(&[Ok(true), Err("menu is gone"), Ok(true)]);
    assert_eq!(played, MenuPlayed { checks: 2, hides: 1, sleeps: vec![10], stopped: true });
}

#[test]
fn suppressor_goes_on_while_menu_is_visible() {
    let played = play_menu(&[Ok(true); 500]);
    assert_eq!(played, MenuPlayed { checks: 500, hides: 500, sleeps: vec![10; 500], stopped: false });
}
