//! The menu suppressor: showing a window may reveal its menu bar, so after
//! every raise the menu is polled and hidden until it reports hidden.
//!
//! The caller queries the menu's visibility and hands the answer to
//! [`on_poll`], which says whether to stop or to hide the menu, wait and
//! query again.

use vstd::prelude::*;

verus! {

/// The pause between hiding the menu and the next query, in milliseconds.
pub const POLL_DELAY_MS: u64 = 10;

/// What the suppressor does after a visibility query.
#[derive(Clone, Copy, Debug, PartialEq, Eq, Structural)]
pub enum MenuStep {
    /// The menu is hidden, or cannot be asked. The suppressor is done.
    Stop,
    /// The menu is visible. Ask it to hide, whatever comes of that, wait
    /// `delay_ms` milliseconds and query again.
    HideThenWait { delay_ms: u64 },
}

/// Whether a visibility query found the menu visible. A query that failed
/// counts as hidden, so that a broken menu ends the polling.
pub open spec fn shows_menu<E>(query: Result<bool, E>) -> bool {
    query == Ok::<bool, E>(true)
}

/// The step that follows a visibility query.
pub open spec fn poll_step<E>(query: Result<bool, E>) -> MenuStep {
    if shows_menu(query) {
        MenuStep::HideThenWait { delay_ms: POLL_DELAY_MS }
    } else {
        MenuStep::Stop
    }
}

/// Takes the answer to a visibility query and decides how the suppressor
/// goes on.
pub fn on_poll<E>(query: Result<bool, E>) -> (step: MenuStep)
    ensures
        step == poll_step(query),
{
    match query {
        Ok(true) => MenuStep::HideThenWait { delay_ms: POLL_DELAY_MS },
        _ => MenuStep::Stop,
    }
}

/// One thing that the suppressor has its caller do.
pub enum MenuEvent {
    /// Query the menu's visibility.
    Check,
    /// Ask the menu to hide.
    Hide,
    /// Wait for `millis` milliseconds.
    Sleep { millis: nat },
}

/// A suppressor played against a script of answers.
pub struct MenuRun {
    /// What the caller did, in order.
    pub events: Seq<MenuEvent>,
    /// How many times the menu's visibility was queried.
    pub checks: nat,
    /// Whether the suppressor came to its end; `false` where the script
    /// ended first.
    pub stopped: bool,
}

/// The suppressor played against `polls`: the first query is answered by
/// `polls[0]`, the next by `polls[1]`, and so on. Answers past the end of
/// the suppressor are not looked at.
pub open spec fn menu_run<E>(polls: Seq<Result<bool, E>>) -> MenuRun
    decreases polls.len(),
{
    if polls.len() == 0 {
        MenuRun { events: Seq::empty(), checks: 0, stopped: false }
    } else {
        match poll_step(polls[0]) {
            MenuStep::Stop => MenuRun { events: seq![MenuEvent::Check], checks: 1, stopped: true },
            MenuStep::HideThenWait { delay_ms } => {
                let rest = menu_run(polls.drop_first());
                MenuRun {
                    events: seq![
                        MenuEvent::Check,
                        MenuEvent::Hide,
                        MenuEvent::Sleep { millis: delay_ms as nat },
                    ] + rest.events,
                    checks: 1 + rest.checks,
                    stopped: rest.stopped,
                }
            },
        }
    }
}

/// The event at place `i` of a run: a query, a hide and a pause of the fixed
/// length, over and over.
pub open spec fn cycle_event(i: int) -> MenuEvent {
    if i % 3 == 0 {
        MenuEvent::Check
    } else if i % 3 == 1 {
        MenuEvent::Hide
    } else {
        MenuEvent::Sleep { millis: POLL_DELAY_MS as nat }
    }
}

/// What holds of every run.
proof fn lemma_run<E>(polls: Seq<Result<bool, E>>)
    ensures
        ({
            let r = menu_run(polls);
            &&& r.checks <= polls.len()
            &&& forall|j: int| 0 <= j < r.checks - 1 ==> shows_menu(#[trigger] polls[j])
            &&& forall|i: int| 0 <= i < r.events.len() ==> #[trigger] r.events[i] == cycle_event(i)
            &&& r.stopped ==> {
                &&& r.checks >= 1
                &&& !shows_menu(polls[r.checks - 1])
                &&& r.events.len() == 3 * r.checks - 2
            }
            &&& !r.stopped ==> {
                &&& r.checks == polls.len()
                &&& r.checks >= 1 ==> shows_menu(polls[r.checks - 1])
                &&& r.events.len() == 3 * r.checks
            }
        }),
    decreases polls.len(),
{
    if polls.len() > 0 && shows_menu(polls[0]) {
        let tail = polls.drop_first();
        lemma_run(tail);
        let rest = menu_run(tail);
        let r = menu_run(polls);
        assert forall|j: int| 0 <= j < r.checks - 1 implies shows_menu(#[trigger] polls[j]) by {
            if j > 0 {
                assert(polls[j] == tail[j - 1]);
            }
        }
        assert forall|i: int| 0 <= i < r.events.len() implies #[trigger] r.events[i]
            == cycle_event(i) by {
            if i >= 3 {
                assert(r.events[i] == rest.events[i - 3]);
            }
        }
    }
}

/// A menu that is hidden at the first query, or cannot be asked, is queried
/// once and left alone.
pub proof fn lemma_hidden_menu_is_checked_once<E>(polls: Seq<Result<bool, E>>)
    requires
        polls.len() > 0,
        !shows_menu(polls[0]),
    ensures
        menu_run(polls).stopped,
        menu_run(polls).checks == 1,
        menu_run(polls).events == seq![MenuEvent::Check],
{
}

/// The suppressor stops at the first query that does not find the menu
/// visible: where that is query `k`, counted from zero, the menu is queried
/// `k + 1` times, and hidden and waited for after each of the first `k`.
pub proof fn lemma_stops_at_first_hidden<E>(polls: Seq<Result<bool, E>>, k: int)
    requires
        0 <= k < polls.len(),
        !shows_menu(polls[k]),
        forall|j: int| 0 <= j < k ==> shows_menu(#[trigger] polls[j]),
    ensures
        menu_run(polls).stopped,
        menu_run(polls).checks == k + 1,
        menu_run(polls).events.len() == 3 * k + 1,
        forall|i: int|
            0 <= i < 3 * k + 1 ==> #[trigger] menu_run(polls).events[i] == cycle_event(i),
{
    lemma_run(polls);
}

/// The suppressor goes on for as long as the menu reports visible: against
/// answers that all find it visible it has not stopped, and has hidden the
/// menu and waited once for each of them.
pub proof fn lemma_polls_while_visible<E>(polls: Seq<Result<bool, E>>)
    requires
        forall|j: int| 0 <= j < polls.len() ==> shows_menu(#[trigger] polls[j]),
    ensures
        !menu_run(polls).stopped,
        menu_run(polls).checks == polls.len(),
        menu_run(polls).events.len() == 3 * polls.len(),
        forall|i: int|
            0 <= i < 3 * polls.len() ==> #[trigger] menu_run(polls).events[i] == cycle_event(i),
{
    lemma_run(polls);
}

} // verus!
