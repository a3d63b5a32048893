//! What the controller asks of the host windowing layer, and what the host
//! answers.
//!
//! The controller never touches the window. It hands out one [`Request`] at a
//! time; the host performs it on the native window and reports a
//! [`Response`].

use vstd::prelude::*;

use crate::error::WindowError;

verus! {

/// One operation on the managed window or on the process that owns it.
#[derive(Debug, Clone, Copy, PartialEq, Eq, Structural)]
pub enum Action {
    /// Make the window visible.
    Show,
    /// Make the window invisible.
    Hide,
    /// Give the window the input focus.
    SetFocus,
    /// Move the window to the centre of its display.
    Center,
    /// Set the window's logical size.
    SetSize { width: u32, height: u32 },
    /// Turn click-through on or off in the window's extended style.
    SetClickThrough { enabled: bool },
    /// Keep a requested close from destroying the window.
    PreventClose,
    /// End the process at once with this exit code.
    Exit { code: i32 },
}

/// What becomes of the rest of a plan when one of its steps fails.
#[derive(Debug, Clone, Copy, PartialEq, Eq, Structural)]
pub enum OnFailure {
    /// The failure ends the plan and is its result.
    Abort,
    /// The failure is handed out for logging and the plan goes on.
    Discard,
}

/// One step of a plan.
#[derive(Debug, Clone, Copy, PartialEq, Eq, Structural)]
pub struct Step {
    pub action: Action,
    pub on_failure: OnFailure,
}

/// What the host is asked to do next.
#[derive(Debug, Clone, Copy, PartialEq, Eq, Structural)]
pub enum Request {
    /// Ask the operating system whether the window is visible right now.
    QueryVisible,
    /// Perform the action on the window.
    Perform(Action),
}

/// The host's answer to a request.
#[derive(Debug, PartialEq, Eq)]
pub enum Response {
    /// The answer to [`Request::QueryVisible`].
    Visible(bool),
    /// The action was performed.
    Completed,
    /// The platform has no such operation; nothing was done.
    Unsupported,
    /// The operating system rejected the call, with its description.
    Failed(String),
}

impl Clone for Response {
    fn clone(&self) -> (copy: Response)
        ensures
            copy == *self,
    {
        match self {
            Response::Visible(visible) => Response::Visible(*visible),
            Response::Completed => Response::Completed,
            Response::Unsupported => Response::Unsupported,
            Response::Failed(message) => Response::Failed(message.clone()),
        }
    }
}

/// The error that stands for a rejected action: a style error for a change of
/// click-through, an operation error for everything else.
pub open spec fn failure_of(action: Action, message: String) -> WindowError {
    if action is SetClickThrough {
        WindowError::OsStyle(message)
    } else {
        WindowError::OsOperation(message)
    }
}

/// The actions of a plan, in order.
pub open spec fn actions_of(steps: Seq<Step>) -> Seq<Action> {
    Seq::new(steps.len(), |i: int| steps[i].action)
}

impl Action {
    /// The error that stands for this action when the host rejects it.
    pub fn failure(&self, message: String) -> (error: WindowError)
        ensures
            error == failure_of(*self, message),
    {
        match self {
            Action::SetClickThrough { .. } => WindowError::OsStyle(message),
            _ => WindowError::OsOperation(message),
        }
    }
}

} // verus!
