//! The lifecycle coordinator: what happens at application startup, and how
//! window events are answered.

use vstd::prelude::*;
use crate::supervisor::SupervisorState;

verus! {

/// The port the backend is started on at application startup.
pub const DEFAULT_PORT: u16 = 8787;

/// Milliseconds to wait after application startup before the backend is
/// started, so that the rest of the application can initialise.
pub const AUTO_START_DELAY_MS: u64 = 500;

/// What to do once the startup delay has passed.
#[derive(Clone, Copy, Debug, PartialEq, Eq, Structural)]
pub enum StartupAction {
    /// Start the backend on this port, once.
    Start(u16),
    /// A handle is already held: do nothing.
    Skip,
}

/// A window event, as far as the coordinator tells events apart.
#[derive(Clone, Copy, Debug, PartialEq, Eq, Structural)]
pub enum WindowEvent {
    /// The user asked for the window to be closed.
    CloseRequested,
    /// Any other event.
    Other,
}

/// How the shell is to answer a window event.
#[derive(Clone, Copy, Debug, PartialEq, Eq, Structural)]
pub struct WindowResponse {
    /// Suppress the default close action.
    pub prevent_close: bool,
    /// Hide the window.
    pub hide: bool,
}

/// Decides whether the backend is started at application startup: only
/// where the slot is empty by then.
pub fn on_startup(state: &SupervisorState) -> (action: StartupAction)
    ensures
        action == if state.handle() is None {
            StartupAction::Start(DEFAULT_PORT)
        } else {
            StartupAction::Skip
        },
{
    match state.status() {
        crate::supervisor::Status::Running(_) => StartupAction::Skip,
        _ => StartupAction::Start(DEFAULT_PORT),
    }
}

/// Answers a window event. A close request hides the window and keeps it
/// from closing; the backend is left as it is, since the supervisor is not
/// even passed in. Every other event takes its default course.
pub fn on_window_event(event: WindowEvent) -> (response: WindowResponse)
    ensures
        response.prevent_close == (event == WindowEvent::CloseRequested),
        response.hide == (event == WindowEvent::CloseRequested),
{
    match event {
        WindowEvent::CloseRequested => WindowResponse { prevent_close: true, hide: true },
        WindowEvent::Other => WindowResponse { prevent_close: false, hide: false },
    }
}

} // verus!
