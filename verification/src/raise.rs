//! The raise coordinator: the calls on the window that bring it to the
//! foreground, in their order, and the background work that follows them.
//!
//! The caller makes the call that the coordinator is waiting for and hands
//! the reply to [`RaiseCoordinator::step`], which names the next call, the
//! background work to start, or the error that ends the raise.

use vstd::prelude::*;
use crate::session::{compositor_session_type, signal, SessionMode};

verus! {

/// An operation of the window that the coordinator asks for.
#[derive(Clone, Copy, Debug, PartialEq, Eq, Structural)]
pub enum WindowCall {
    /// Hide the window.
    Hide,
    /// Show the window.
    Show,
    /// Ask whether the window is visible.
    IsVisible,
    /// Read the window's title.
    Title,
}

/// What the window answered to a call, with the error type of the window's
/// own operations.
#[derive(Debug, PartialEq, Eq)]
pub enum WindowReply<E> {
    /// The answer to [`WindowCall::Hide`].
    Hidden(Result<(), E>),
    /// The answer to [`WindowCall::Show`].
    Shown(Result<(), E>),
    /// The answer to [`WindowCall::IsVisible`].
    Visible(Result<bool, E>),
    /// The answer to [`WindowCall::Title`].
    Titled(Result<String, E>),
}

impl<E> WindowReply<E> {
    /// The call that this reply answers.
    pub open spec fn call(self) -> WindowCall {
        match self {
            WindowReply::Hidden(_) => WindowCall::Hide,
            WindowReply::Shown(_) => WindowCall::Show,
            WindowReply::Visible(_) => WindowCall::IsVisible,
            WindowReply::Titled(_) => WindowCall::Title,
        }
    }
}

/// The background work to start once the window's own calls are through.
/// Each task runs on its own; the raise does not wait for either.
#[derive(Debug, PartialEq, Eq)]
pub enum Launch {
    /// Start the menu suppressor.
    MenuSuppressor,
    /// Start the focus retry loop for the window titled `title`, then the
    /// menu suppressor.
    FocusRetryThenMenuSuppressor { title: String },
}

/// The coordinator between two calls: each state stands for the call whose
/// reply it is waiting for.
#[derive(Clone, Copy, Debug, PartialEq, Eq, Structural)]
pub enum RaiseCoordinator {
    /// Compositor-managed session: the window is being hidden.
    Hiding,
    /// Compositor-managed session: the hidden window is being shown again.
    Reshowing,
    /// Window-manager session: the window's visibility is being asked.
    Probing,
    /// Window-manager session: the window, found hidden, is being shown.
    Showing,
    /// Window-manager session: the window's title is being read.
    Titling,
}

/// What the coordinator decides on a reply.
#[derive(Debug, PartialEq, Eq)]
pub enum RaiseStep<E> {
    /// Make the call that the given state is waiting for and report the
    /// reply to it.
    Call(RaiseCoordinator),
    /// The raise has succeeded. Start the background work and return.
    Launch(Launch),
    /// The raise has failed with the window's error.
    Fail(E),
}

impl RaiseCoordinator {
    /// Where a raise starts: in a compositor-managed session by hiding the
    /// window, else by asking whether it is visible.
    pub open spec fn start(mode: SessionMode) -> RaiseCoordinator {
        match mode {
            SessionMode::Compositor => RaiseCoordinator::Hiding,
            SessionMode::WindowManager => RaiseCoordinator::Probing,
        }
    }

    /// The call whose reply this state is waiting for.
    pub open spec fn pending(self) -> WindowCall {
        match self {
            RaiseCoordinator::Hiding => WindowCall::Hide,
            RaiseCoordinator::Reshowing => WindowCall::Show,
            RaiseCoordinator::Probing => WindowCall::IsVisible,
            RaiseCoordinator::Showing => WindowCall::Show,
            RaiseCoordinator::Titling => WindowCall::Title,
        }
    }

    /// The decision on a reply.
    ///
    /// A failed call ends the raise with its error. In a compositor-managed
    /// session the window is hidden and shown, and only the menu suppressor
    /// follows. In a window-manager session the window is shown unless it is
    /// visible already, its title is read, and the focus retry loop for that
    /// title and the menu suppressor follow. A reply to another call than the
    /// pending one changes nothing: the pending call is asked for again.
    pub open spec fn next<E>(self, reply: WindowReply<E>) -> RaiseStep<E> {
        match (self, reply) {
            (RaiseCoordinator::Hiding, WindowReply::Hidden(Ok(_))) => RaiseStep::Call(
                RaiseCoordinator::Reshowing,
            ),
            (RaiseCoordinator::Hiding, WindowReply::Hidden(Err(e))) => RaiseStep::Fail(e),
            (RaiseCoordinator::Reshowing, WindowReply::Shown(Ok(_))) => RaiseStep::Launch(
                Launch::MenuSuppressor,
            ),
            (RaiseCoordinator::Reshowing, WindowReply::Shown(Err(e))) => RaiseStep::Fail(e),
            (RaiseCoordinator::Probing, WindowReply::Visible(Ok(visible))) => RaiseStep::Call(
                if visible {
                    RaiseCoordinator::Titling
                } else {
                    RaiseCoordinator::Showing
                },
            ),
            (RaiseCoordinator::Probing, WindowReply::Visible(Err(e))) => RaiseStep::Fail(e),
            (RaiseCoordinator::Showing, WindowReply::Shown(Ok(_))) => RaiseStep::Call(
                RaiseCoordinator::Titling,
            ),
            (RaiseCoordinator::Showing, WindowReply::Shown(Err(e))) => RaiseStep::Fail(e),
            (RaiseCoordinator::Titling, WindowReply::Titled(Ok(title))) => RaiseStep::Launch(
                Launch::FocusRetryThenMenuSuppressor { title },
            ),
            (RaiseCoordinator::Titling, WindowReply::Titled(Err(e))) => RaiseStep::Fail(e),
            _ => RaiseStep::Call(self),
        }
    }

    /// Starts a raise in a session of the given mode. The first call is due
    /// at once.
    pub fn begin(mode: SessionMode) -> (first: RaiseCoordinator)
        ensures
            first == RaiseCoordinator::start(mode),
    {
        match mode {
            SessionMode::Compositor => RaiseCoordinator::Hiding,
            SessionMode::WindowManager => RaiseCoordinator::Probing,
        }
    }

    /// The call to make on the window now.
    pub fn pending_call(&self) -> (call: WindowCall)
        ensures
            call == self.pending(),
    {
        match self {
            RaiseCoordinator::Hiding => WindowCall::Hide,
            RaiseCoordinator::Reshowing => WindowCall::Show,
            RaiseCoordinator::Probing => WindowCall::IsVisible,
            RaiseCoordinator::Showing => WindowCall::Show,
            RaiseCoordinator::Titling => WindowCall::Title,
        }
    }

    /// Takes the window's reply and decides how the raise goes on.
    pub fn step<E>(self, reply: WindowReply<E>) -> (step: RaiseStep<E>)
        ensures
            step == self.next(reply),
    {
        match (self, reply) {
            (RaiseCoordinator::Hiding, WindowReply::Hidden(result)) => match result {
                Ok(_) => RaiseStep::Call(RaiseCoordinator::Reshowing),
                Err(e) => RaiseStep::Fail(e),
            },
            (RaiseCoordinator::Reshowing, WindowReply::Shown(result)) => match result {
                Ok(_) => RaiseStep::Launch(Launch::MenuSuppressor),
                Err(e) => RaiseStep::Fail(e),
            },
            (RaiseCoordinator::Probing, WindowReply::Visible(result)) => match result {
                Ok(true) => RaiseStep::Call(RaiseCoordinator::Titling),
                Ok(false) => RaiseStep::Call(RaiseCoordinator::Showing),
                Err(e) => RaiseStep::Fail(e),
            },
            (RaiseCoordinator::Showing, WindowReply::Shown(result)) => match result {
                Ok(_) => RaiseStep::Call(RaiseCoordinator::Titling),
                Err(e) => RaiseStep::Fail(e),
            },
            (RaiseCoordinator::Titling, WindowReply::Titled(result)) => match result {
                Ok(title) => RaiseStep::Launch(Launch::FocusRetryThenMenuSuppressor { title }),
                Err(e) => RaiseStep::Fail(e),
            },
            (state, _) => RaiseStep::Call(state),
        }
    }
}

/// Starts a raise of the window. `session_type` is the session-type signal
/// of the environment, read once for this raise, `None` where it is absent.
/// The first call on the window is due at once.
pub fn raise_window(session_type: Option<&str>) -> (first: RaiseCoordinator)
    ensures
        first == RaiseCoordinator::start(SessionMode::of(signal(session_type))),
        signal(session_type) == Some(compositor_session_type()) ==> first
            == RaiseCoordinator::Hiding,
        signal(session_type) != Some(compositor_session_type()) ==> first
            == RaiseCoordinator::Probing,
{
    RaiseCoordinator::begin(SessionMode::detect(session_type))
}

/// A window as one raise sees it: what each of its operations answers.
/// A raise makes each call at most once, so one answer for each is enough.
pub struct WindowScript<E> {
    pub hide: Result<(), E>,
    pub show: Result<(), E>,
    pub visible: Result<bool, E>,
    pub title: Result<String, E>,
}

impl<E> WindowScript<E> {
    /// The window's reply to a call.
    pub open spec fn reply(self, call: WindowCall) -> WindowReply<E> {
        match call {
            WindowCall::Hide => WindowReply::Hidden(self.hide),
            WindowCall::Show => WindowReply::Shown(self.show),
            WindowCall::IsVisible => WindowReply::Visible(self.visible),
            WindowCall::Title => WindowReply::Titled(self.title),
        }
    }
}

/// A raise played against a window.
pub struct RaiseRun<E> {
    /// The calls made on the window, in order.
    pub calls: Seq<WindowCall>,
    /// The background work that the raise starts, or the error that it
    /// fails with.
    pub end: Result<Launch, E>,
}

impl RaiseCoordinator {
    /// An upper bound on the calls that are still to be made.
    pub open spec fn calls_left(self) -> nat {
        match self {
            RaiseCoordinator::Hiding => 2,
            RaiseCoordinator::Reshowing => 1,
            RaiseCoordinator::Probing => 3,
            RaiseCoordinator::Showing => 2,
            RaiseCoordinator::Titling => 1,
        }
    }

    /// The rest of a raise from this state, played against `window`: the
    /// pending call is made, the window's reply is handed to the
    /// coordinator, and so on to the end.
    pub open spec fn drive<E>(self, window: WindowScript<E>) -> RaiseRun<E>
        decreases self.calls_left(),
    {
        match self.next(window.reply(self.pending())) {
            RaiseStep::Call(state) => {
                let rest = state.drive(window);
                RaiseRun { calls: seq![self.pending()] + rest.calls, end: rest.end }
            },
            RaiseStep::Launch(launch) => RaiseRun { calls: seq![self.pending()], end: Ok(launch) },
            RaiseStep::Fail(e) => RaiseRun { calls: seq![self.pending()], end: Err(e) },
        }
    }
}

/// A whole raise in a session of the given mode, played against `window`.
pub open spec fn raise_run<E>(mode: SessionMode, window: WindowScript<E>) -> RaiseRun<E> {
    RaiseCoordinator::start(mode).drive(window)
}

/// In a compositor-managed session a raise hides the window and then shows
/// it. It stops at the first of the two that fails, with that error; when
/// both succeed, only the menu suppressor is started. The window is not
/// asked for its visibility or its title.
pub proof fn lemma_compositor_raise<E>(window: WindowScript<E>)
    ensures
        raise_run(SessionMode::Compositor, window) == match (window.hide, window.show) {
            (Err(e), _) => RaiseRun { calls: seq![WindowCall::Hide], end: Err(e) },
            (Ok(_), Err(e)) => RaiseRun {
                calls: seq![WindowCall::Hide, WindowCall::Show],
                end: Err(e),
            },
            (Ok(_), Ok(_)) => RaiseRun {
                calls: seq![WindowCall::Hide, WindowCall::Show],
                end: Ok(Launch::MenuSuppressor),
            },
        },
{
    reveal_with_fuel(RaiseCoordinator::drive, 2);
    let run = raise_run(SessionMode::Compositor, window);
    if window.hide is Ok {
        assert(run.calls =~= seq![WindowCall::Hide, WindowCall::Show]);
    }
}

/// In a window-manager session a raise asks whether the window is visible,
/// shows it if it is not, and reads its title. It stops at the first call
/// that fails, with that error; when all succeed, the focus retry loop is
/// started for the title that was read, and then the menu suppressor. The
/// window is never hidden.
pub proof fn lemma_window_manager_raise<E>(window: WindowScript<E>)
    ensures
        raise_run(SessionMode::WindowManager, window) == match window.visible {
            Err(e) => RaiseRun { calls: seq![WindowCall::IsVisible], end: Err(e) },
            Ok(true) => RaiseRun {
                calls: seq![WindowCall::IsVisible, WindowCall::Title],
                end: match window.title {
                    Ok(title) => Ok(Launch::FocusRetryThenMenuSuppressor { title }),
                    Err(e) => Err(e),
                },
            },
            Ok(false) => match window.show {
                Err(e) => RaiseRun {
                    calls: seq![WindowCall::IsVisible, WindowCall::Show],
                    end: Err(e),
                },
                Ok(_) => RaiseRun {
                    calls: seq![WindowCall::IsVisible, WindowCall::Show, WindowCall::Title],
                    end: match window.title {
                        Ok(title) => Ok(Launch::FocusRetryThenMenuSuppressor { title }),
                        Err(e) => Err(e),
                    },
                },
            },
        },
{
    reveal_with_fuel(RaiseCoordinator::drive, 3);
    let run = raise_run(SessionMode::WindowManager, window);
    match window.visible {
        Err(_) => {},
        Ok(true) => {
            assert(run.calls =~= seq![WindowCall::IsVisible, WindowCall::Title]);
        },
        Ok(false) => {
            if window.show is Ok {
                assert(run.calls =~= seq![
                    WindowCall::IsVisible,
                    WindowCall::Show,
                    WindowCall::Title,
                ]);
            } else {
                assert(run.calls =~= seq![WindowCall::IsVisible, WindowCall::Show]);
            }
        },
    }
}

/// The session type alone selects the strategy. Exactly the compositor's
/// session type makes a raise start by hiding the window, never ask for its
/// visibility or title, and start no focus retry loop. Every other session
/// type, and an absent one, makes it start by asking for the window's
/// visibility, never hide it, and start the focus retry loop when it
/// succeeds.
pub proof fn lemma_session_type_selects_strategy<E>(
    session_type: Option<Seq<char>>,
    window: WindowScript<E>,
)
    ensures
        ({
            let run = raise_run(SessionMode::of(session_type), window);
            if session_type == Some(compositor_session_type()) {
                &&& run.calls[0] == WindowCall::Hide
                &&& !run.calls.contains(WindowCall::IsVisible)
                &&& !run.calls.contains(WindowCall::Title)
                &&& run.end is Ok ==> run.end == Ok::<Launch, E>(Launch::MenuSuppressor)
            } else {
                &&& run.calls[0] == WindowCall::IsVisible
                &&& !run.calls.contains(WindowCall::Hide)
                &&& run.end is Ok ==> window.title is Ok && run.end == Ok::<Launch, E>(
                    Launch::FocusRetryThenMenuSuppressor { title: window.title->Ok_0 },
                )
            }
        }),
{
    lemma_compositor_raise(window);
    lemma_window_manager_raise(window);
}

/// A window that is visible already is not shown again, and one that is
/// hidden is shown exactly once, right after it was found hidden.
pub proof fn lemma_shown_only_when_hidden<E>(window: WindowScript<E>)
    ensures
        window.visible == Ok::<bool, E>(true) ==> !raise_run(
            SessionMode::WindowManager,
            window,
        ).calls.contains(WindowCall::Show),
        window.visible == Ok::<bool, E>(false) ==> {
            let calls = raise_run(SessionMode::WindowManager, window).calls;
            &&& calls[1] == WindowCall::Show
            &&& forall|i: int| 0 <= i < calls.len() && i != 1 ==> calls[i] != WindowCall::Show
        },
{
    lemma_window_manager_raise(window);
}

} // verus!
