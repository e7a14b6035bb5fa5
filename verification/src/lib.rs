//! Decision logic for bringing an application's main window to the
//! foreground, and for hiding the menu bar that showing the window may
//! reveal.
//!
//! Nothing here touches a window, a process or a clock. Each routine is a
//! small state machine: the embedding program performs the call, the sleep or
//! the external command that the machine asks for and reports what came of
//! it; the machine says what to do next.

pub mod focus;
pub mod menu;
pub mod raise;
pub mod session;
pub mod window;
