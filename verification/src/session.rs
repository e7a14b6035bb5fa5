//! Classification of the desktop session by its display protocol.

use vstd::prelude::*;

verus! {

/// How windows of the current session are managed.
#[derive(Clone, Copy, Debug, PartialEq, Eq, Structural)]
pub enum SessionMode {
    /// A compositor owns focus; a window is raised by hiding and showing it.
    Compositor,
    /// A window manager owns focus; it is asked to focus a window by title.
    WindowManager,
}

/// The environment variable that holds the session type.
pub const SESSION_TYPE_VAR: &'static str = "XDG_SESSION_TYPE";

/// The characters of a session-type signal, `None` where it is absent.
pub open spec fn signal(session_type: Option<&str>) -> Option<Seq<char>> {
    match session_type {
        Some(s) => Some(s@),
        None => None,
    }
}

/// The session type that names a compositor-managed session.
pub open spec fn compositor_session_type() -> Seq<char> {
    "wayland"@
}

impl SessionMode {
    /// The mode that a session type stands for. Only the exact,
    /// case-sensitive compositor name selects `Compositor`; every other value,
    /// and an absent one, selects `WindowManager`.
    pub open spec fn of(session_type: Option<Seq<char>>) -> SessionMode {
        if session_type == Some(compositor_session_type()) {
            SessionMode::Compositor
        } else {
            SessionMode::WindowManager
        }
    }

    /// Classifies the session from the value of its session-type signal,
    /// `None` where the signal is absent.
    pub fn detect(session_type: Option<&str>) -> (mode: SessionMode)
        ensures
            mode == SessionMode::of(signal(session_type)),
    {
        match session_type {
            Some(s) => {
                let given = s.to_owned();
                let compositor = "wayland".to_owned();
                if given == compositor {
                    SessionMode::Compositor
                } else {
                    SessionMode::WindowManager
                }
            },
            None => SessionMode::WindowManager,
        }
    }
}

} // verus!
