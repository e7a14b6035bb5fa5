//! Raising and menu suppression as operations of a window object.

use vstd::prelude::*;

verus! {

/// The two operations that this library adds to a window.
///
/// An implementation for a concrete window drives the state machines of
/// this library against it: [`raise`](WindowExt::raise) follows a
/// [`RaiseCoordinator`](crate::raise::RaiseCoordinator) through the window's
/// own calls and starts the background work that it ends on;
/// [`hide_menu`](WindowExt::hide_menu) starts the polling that
/// [`on_poll`](crate::menu::on_poll) decides.
pub trait WindowExt {
    /// The error of the window's own operations.
    type Error;

    /// Brings the window to the foreground. Fails only where one of the
    /// window's own calls fails; what becomes of the background work is not
    /// reported.
    fn raise(&self) -> Result<(), Self::Error>;

    /// Starts the menu suppressor for the window's menu and returns at once.
    fn hide_menu(&self);
}

} // verus!
