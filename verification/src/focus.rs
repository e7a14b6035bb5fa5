//! The focus retry loop: asking the window manager, through an external
//! command, to focus a window by its title, and trying again for a bounded
//! number of times while it refuses.
//!
//! The caller runs the command of [`focus_command`] and hands what became of
//! it to [`FocusRetry::on_outcome`], which says whether the loop is over or
//! how long to wait before the next attempt.

use vstd::prelude::*;

verus! {

/// How many times a failed attempt is followed by another one.
pub const MAX_RETRIES: u8 = 10;

/// The pause between a failed attempt and the next one, in milliseconds.
pub const RETRY_DELAY_MS: u64 = 100;

/// The external command that asks the window manager to focus a window.
#[derive(Debug, PartialEq, Eq)]
pub struct FocusCommand {
    /// The program to run.
    pub program: String,
    /// Its arguments, in order.
    pub args: Vec<String>,
}

/// The program of the focus command: the window manager's control program.
pub open spec fn focus_program() -> Seq<char> {
    "wmctrl"@
}

/// The arguments of the focus command for a window title: activate the
/// window whose title is exactly `title`.
pub open spec fn focus_args(title: Seq<char>) -> Seq<Seq<char>> {
    seq!["-F"@, "-a"@, title]
}

/// Builds the focus command for a window title.
pub fn focus_command(title: &str) -> (command: FocusCommand)
    ensures
        command.program@ == focus_program(),
        command.args.deep_view() == focus_args(title@),
{
    let mut args: Vec<String> = Vec::new();
    args.push("-F".to_owned());
    args.push("-a".to_owned());
    args.push(title.to_owned());
    FocusCommand { program: "wmctrl".to_owned(), args }
}

/// What became of one run of the focus command.
#[derive(Clone, Copy, Debug, PartialEq, Eq, Structural)]
pub enum AttemptOutcome {
    /// The command could not be started.
    SpawnFailed,
    /// The command was started, but waiting for its end failed.
    WaitFailed,
    /// The command ran to its end; `success` is what its exit status reports.
    Exited { success: bool },
}

impl AttemptOutcome {
    /// An attempt raised the window only if the command was started, ended,
    /// and reported success. Every other outcome is a failed attempt.
    pub open spec fn raised(self) -> bool {
        self == (AttemptOutcome::Exited { success: true })
    }

    /// Whether this attempt raised the window.
    pub fn is_raised(&self) -> (r: bool)
        ensures
            r == self.raised(),
    {
        match self {
            AttemptOutcome::Exited { success } => *success,
            _ => false,
        }
    }
}

/// The state of the loop between two attempts. Its view is the number of
/// attempts that have failed so far.
#[derive(Debug, PartialEq, Eq)]
pub struct FocusRetry {
    failures: u8,
}

impl View for FocusRetry {
    type V = nat;

    closed spec fn view(&self) -> nat {
        self.failures as nat
    }
}

/// What the loop does after an attempt.
#[derive(Debug, PartialEq, Eq)]
pub enum FocusStep {
    /// The window was raised by attempt number `attempts`, counted from one.
    /// The loop is over.
    Raised { attempts: u8 },
    /// The attempt failed. Wait `delay_ms` milliseconds, run the command
    /// again and report its outcome to `next`.
    Retry { next: FocusRetry, delay_ms: u64 },
    /// The attempt failed and no retry is left. The loop is over.
    GaveUp,
}

/// A step of the loop as a plain value: what [`FocusStep`] is a view of.
pub enum FocusMove {
    /// Attempt number `attempts`, counted from one, raised the window.
    Raised { attempts: nat },
    /// The attempt failed, as `failures` attempts have by now; the next one
    /// follows after `delay_ms` milliseconds.
    Retry { failures: nat, delay_ms: nat },
    /// The attempt failed and no retry is left.
    GaveUp,
}

impl View for FocusStep {
    type V = FocusMove;

    open spec fn view(&self) -> FocusMove {
        match *self {
            FocusStep::Raised { attempts } => FocusMove::Raised { attempts: attempts as nat },
            FocusStep::Retry { next, delay_ms } => FocusMove::Retry {
                failures: next@,
                delay_ms: delay_ms as nat,
            },
            FocusStep::GaveUp => FocusMove::GaveUp,
        }
    }
}

/// The step that follows an attempt with the given outcome, made after
/// `failures` failed ones. A success ends the loop at once; a failure is
/// retried after the fixed delay until `MAX_RETRIES` retries have been made.
pub open spec fn transition(failures: nat, outcome: AttemptOutcome) -> FocusMove {
    if outcome.raised() {
        FocusMove::Raised { attempts: failures + 1 }
    } else if failures >= MAX_RETRIES {
        FocusMove::GaveUp
    } else {
        FocusMove::Retry { failures: failures + 1, delay_ms: RETRY_DELAY_MS as nat }
    }
}

impl FocusRetry {
    #[verifier::type_invariant]
    spec fn within_budget(self) -> bool {
        self.failures <= MAX_RETRIES
    }

    /// The loop before its first attempt, which is due at once.
    pub fn new() -> (retry: FocusRetry)
        ensures
            retry@ == 0,
    {
        FocusRetry { failures: 0 }
    }

    /// The number of attempts that have failed so far.
    pub fn failures(&self) -> (n: u8)
        ensures
            n == self@,
            n <= MAX_RETRIES,
    {
        proof {
            use_type_invariant(self);
        }
        self.failures
    }

    /// Takes the outcome of the attempt that was due and decides how the
    /// loop goes on.
    pub fn on_outcome(self, outcome: AttemptOutcome) -> (step: FocusStep)
        ensures
            self@ <= MAX_RETRIES,
            step@ == transition(self@, outcome),
    {
        proof {
            use_type_invariant(&self);
        }
        if outcome.is_raised() {
            FocusStep::Raised { attempts: self.failures + 1 }
        } else if self.failures >= MAX_RETRIES {
            FocusStep::GaveUp
        } else {
            FocusStep::Retry {
                next: FocusRetry { failures: self.failures + 1 },
                delay_ms: RETRY_DELAY_MS,
            }
        }
    }
}

/// One thing that the loop has its caller do.
pub enum FocusEvent {
    /// Run the focus command once.
    Attempt,
    /// Wait for `millis` milliseconds.
    Sleep { millis: nat },
}

/// How a loop ended.
pub enum FocusEnd {
    /// Attempt number `attempts`, counted from one, raised the window.
    Raised { attempts: nat },
    /// Every attempt failed and no retry was left.
    GaveUp,
}

/// A loop played against a script of outcomes.
pub struct FocusRun {
    /// What the caller did, in order.
    pub events: Seq<FocusEvent>,
    /// How many times the command was run.
    pub attempts: nat,
    /// How the loop ended; `None` where the script ended first.
    pub end: Option<FocusEnd>,
}

/// The loop that has seen `failures` failed attempts, played against
/// `outcomes`: the next attempt finds `outcomes[0]`, the one after it
/// `outcomes[1]`, and so on. Outcomes past the end of the loop are not
/// looked at.
pub open spec fn run(failures: nat, outcomes: Seq<AttemptOutcome>) -> FocusRun
    decreases outcomes.len(),
{
    if outcomes.len() == 0 {
        FocusRun { events: Seq::empty(), attempts: 0, end: None }
    } else {
        match transition(failures, outcomes[0]) {
            FocusMove::Raised { attempts } => FocusRun {
                events: seq![FocusEvent::Attempt],
                attempts: 1,
                end: Some(FocusEnd::Raised { attempts }),
            },
            FocusMove::GaveUp => FocusRun {
                events: seq![FocusEvent::Attempt],
                attempts: 1,
                end: Some(FocusEnd::GaveUp),
            },
            FocusMove::Retry { failures: next, delay_ms } => {
                let rest = run(next, outcomes.drop_first());
                FocusRun {
                    events: seq![FocusEvent::Attempt, FocusEvent::Sleep { millis: delay_ms }]
                        + rest.events,
                    attempts: 1 + rest.attempts,
                    end: rest.end,
                }
            },
        }
    }
}

/// A fresh loop played against `outcomes`.
pub open spec fn focus_run(outcomes: Seq<AttemptOutcome>) -> FocusRun {
    run(0, outcomes)
}

/// The event at place `i` of a run: attempts and pauses of the fixed length
/// take turns, an attempt first.
pub open spec fn paced_event(i: int) -> FocusEvent {
    if i % 2 == 0 {
        FocusEvent::Attempt
    } else {
        FocusEvent::Sleep { millis: RETRY_DELAY_MS as nat }
    }
}

/// What holds of every run, from any number of failures within the budget.
proof fn lemma_run(failures: nat, outcomes: Seq<AttemptOutcome>)
    requires
        failures <= MAX_RETRIES,
    ensures
        ({
            let r = run(failures, outcomes);
            &&& failures + r.attempts <= MAX_RETRIES + 1
            &&& r.attempts <= outcomes.len()
            &&& forall|j: int| 0 <= j < r.attempts - 1 ==> !(#[trigger] outcomes[j]).raised()
            &&& r.end is Some ==> r.events.len() == 2 * r.attempts - 1
            &&& r.end is None ==> r.events.len() == 2 * r.attempts
            &&& forall|i: int| 0 <= i < r.events.len() ==> #[trigger] r.events[i] == paced_event(i)
            &&& match r.end {
                Some(FocusEnd::Raised { attempts }) => {
                    &&& r.attempts >= 1
                    &&& attempts == failures + r.attempts
                    &&& outcomes[r.attempts - 1].raised()
                },
                Some(FocusEnd::GaveUp) => {
                    &&& r.attempts >= 1
                    &&& failures + r.attempts == MAX_RETRIES + 1
                    &&& !outcomes[r.attempts - 1].raised()
                },
                None => {
                    &&& r.attempts == outcomes.len()
                    &&& failures + r.attempts <= MAX_RETRIES
                    &&& r.attempts >= 1 ==> !outcomes[r.attempts - 1].raised()
                },
            }
        }),
    decreases outcomes.len(),
{
    if outcomes.len() > 0 {
        match transition(failures, outcomes[0]) {
            FocusMove::Retry { failures: next, delay_ms } => {
                let tail = outcomes.drop_first();
                lemma_run(next, tail);
                let rest = run(next, tail);
                let r = run(failures, outcomes);
                assert forall|j: int| 0 <= j < r.attempts - 1 implies !(#[trigger] outcomes[j]).raised() by {
                    if j > 0 {
                        assert(outcomes[j] == tail[j - 1]);
                    }
                }
                assert forall|i: int| 0 <= i < r.events.len() implies #[trigger] r.events[i]
                    == paced_event(i) by {
                    if i >= 2 {
                        assert(r.events[i] == rest.events[i - 2]);
                    }
                }
            },
            _ => {},
        }
    }
}

/// A loop runs the command at most `MAX_RETRIES + 1` times, whatever the
/// attempts yield.
pub proof fn lemma_attempts_bounded(outcomes: Seq<AttemptOutcome>)
    ensures
        focus_run(outcomes).attempts <= MAX_RETRIES + 1,
{
    lemma_run(0, outcomes);
}

/// A loop ends with the first attempt that raises the window: where
/// attempt `k`, counted from zero, is the first to succeed and lies within
/// the budget, the command is run `k + 1` times and the loop reports that
/// number.
pub proof fn lemma_stops_at_first_success(outcomes: Seq<AttemptOutcome>, k: int)
    requires
        0 <= k < outcomes.len(),
        k <= MAX_RETRIES,
        outcomes[k].raised(),
        forall|j: int| 0 <= j < k ==> !(#[trigger] outcomes[j]).raised(),
    ensures
        focus_run(outcomes).attempts == k + 1,
        focus_run(outcomes).end == Some(FocusEnd::Raised { attempts: (k + 1) as nat }),
{
    lemma_run(0, outcomes);
}

/// A loop whose first `MAX_RETRIES + 1` attempts all fail gives up after
/// exactly that many.
pub proof fn lemma_gives_up_when_budget_spent(outcomes: Seq<AttemptOutcome>)
    requires
        outcomes.len() > MAX_RETRIES,
        forall|j: int| 0 <= j <= MAX_RETRIES ==> !(#[trigger] outcomes[j]).raised(),
    ensures
        focus_run(outcomes).attempts == MAX_RETRIES + 1,
        focus_run(outcomes).end == Some(FocusEnd::GaveUp),
{
    lemma_run(0, outcomes);
}

/// Attempts and pauses take turns: a run starts with an attempt, each
/// attempt but the last is followed by a pause of `RETRY_DELAY_MS`
/// milliseconds and then by the next attempt, and a loop that has ended
/// has ended on an attempt.
pub proof fn lemma_attempt_spacing(outcomes: Seq<AttemptOutcome>)
    ensures
        forall|i: int|
            0 <= i < focus_run(outcomes).events.len() ==> #[trigger] focus_run(outcomes).events[i]
                == paced_event(i),
        focus_run(outcomes).end is Some ==> focus_run(outcomes).events.len() == 2 * focus_run(
            outcomes,
        ).attempts - 1,
        focus_run(outcomes).end is None ==> focus_run(outcomes).events.len() == 2 * focus_run(
            outcomes,
        ).attempts,
{
    lemma_run(0, outcomes);
}

} // verus!
