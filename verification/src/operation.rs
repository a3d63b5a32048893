//! The handling of one event, as a conversation with the host.
//!
//! An [`Operation`] is begun for an event, hands out requests one at a time
//! and takes the host's answer to each. It is the only place where what was
//! done so far decides what is done next: whether the window is visible
//! decides how it is toggled, and a failure decides whether the rest of the
//! plan is still carried out. The host must run every operation to its end
//! before it begins the next, so that no two of them interleave.

use vstd::prelude::*;

use crate::error::WindowError;
use crate::event::{ClosePolicy, Event};
use crate::plan::{immediate, immediate_plan, toggle_plan, toggle_window};
use crate::protocol::{failure_of, OnFailure, Request, Response, Step};

verus! {

/// The state of an operation: what is still to be asked of the host.
pub struct OperationState {
    /// The operation waits to learn whether the window is visible.
    pub awaiting_visibility: bool,
    /// The steps that have not been performed yet, the next one first.
    pub remaining: Seq<Step>,
    /// The failure that ended the operation, if one did.
    pub failure: Option<WindowError>,
}

impl OperationState {
    /// The state in which the handling of an event begins. A toggling event
    /// first asks the operating system whether the window is visible, and
    /// trusts no earlier answer; every other event starts on its plan.
    pub open spec fn start(event: Event, policy: ClosePolicy) -> OperationState {
        OperationState {
            awaiting_visibility: event.is_toggle(),
            remaining: immediate_plan(event, policy),
            failure: None,
        }
    }

    /// The request that is outstanding; `None` once the operation is over.
    pub open spec fn request(self) -> Option<Request> {
        if self.failure is Some {
            None
        } else if self.awaiting_visibility {
            Some(Request::QueryVisible)
        } else if self.remaining.len() > 0 {
            Some(Request::Perform(self.remaining[0].action))
        } else {
            None
        }
    }

    /// Whether nothing is left to ask of the host.
    pub open spec fn finished(self) -> bool {
        self.request() is None
    }

    /// The state after the host has answered the outstanding request.
    ///
    /// A report of visibility answers the query and fixes the plan. A
    /// completed or unsupported action moves on to the next step. A failure
    /// ends the operation, unless the step tolerates it. An answer that does
    /// not fit the outstanding request is no answer, and an operation that
    /// is over takes none.
    pub open spec fn respond(self, response: Response) -> OperationState {
        if self.finished() {
            self
        } else if self.awaiting_visibility {
            match response {
                Response::Visible(visible) => OperationState {
                    awaiting_visibility: false,
                    remaining: toggle_plan(visible),
                    failure: None,
                },
                Response::Failed(message) => OperationState {
                    failure: Some(WindowError::OsOperation(message)),
                    ..self
                },
                _ => self,
            }
        } else {
            let step = self.remaining[0];
            let rest = OperationState { remaining: self.remaining.skip(1), ..self };
            match response {
                Response::Completed => rest,
                Response::Unsupported => rest,
                Response::Failed(message) => if step.on_failure is Discard {
                    rest
                } else {
                    OperationState { failure: Some(failure_of(step.action, message)), ..self }
                },
                Response::Visible(_) => self,
            }
        }
    }

    /// The failure that this answer reports and that the operation passes
    /// over: it is handed out to be logged and has no other effect.
    pub open spec fn discards(self, response: Response) -> Option<WindowError> {
        if !self.finished() && !self.awaiting_visibility && self.remaining[0].on_failure
            is Discard {
            match response {
                Response::Failed(message) => Some(failure_of(self.remaining[0].action, message)),
                _ => None,
            }
        } else {
            None
        }
    }

    /// The result of the operation: the failure that ended it, or success.
    pub open spec fn result(self) -> Result<(), WindowError> {
        match self.failure {
            Some(error) => Err(error),
            None => Ok(()),
        }
    }
}

/// The handling of one event.
pub struct Operation {
    awaiting_visibility: bool,
    steps: Vec<Step>,
    cursor: usize,
    failure: Option<WindowError>,
}

impl View for Operation {
    type V = OperationState;

    closed spec fn view(&self) -> OperationState {
        OperationState {
            awaiting_visibility: self.awaiting_visibility,
            remaining: if self.cursor <= self.steps@.len() {
                self.steps@.skip(self.cursor as int)
            } else {
                Seq::empty()
            },
            failure: self.failure,
        }
    }
}

impl Operation {
    /// Begins the handling of an event.
    pub fn begin(event: Event, policy: ClosePolicy) -> (operation: Operation)
        ensures
            operation@ == OperationState::start(event, policy),
    {
        let steps = immediate(event, policy);
        assert(steps@.skip(0) =~= steps@);
        Operation { awaiting_visibility: event.toggles(), steps, cursor: 0, failure: None }
    }

    /// The request that the host is to perform next; `None` once the
    /// operation is over.
    pub fn request(&self) -> (request: Option<Request>)
        ensures
            request == self@.request(),
    {
        if self.failure.is_some() {
            None
        } else if self.awaiting_visibility {
            Some(Request::QueryVisible)
        } else if self.cursor < self.steps.len() {
            Some(Request::Perform(self.steps[self.cursor].action))
        } else {
            None
        }
    }

    /// Whether the operation is over.
    pub fn is_finished(&self) -> (finished: bool)
        ensures
            finished == self@.finished(),
    {
        self.request().is_none()
    }

    /// Takes the host's answer to the outstanding request. What comes back
    /// is a failure that the operation passes over, for the host to log.
    pub fn respond(&mut self, response: Response) -> (discarded: Option<WindowError>)
        ensures
            final(self)@ == old(self)@.respond(response),
            discarded == old(self)@.discards(response),
    {
        if self.failure.is_some() {
            None
        } else if self.awaiting_visibility {
            match response {
                Response::Visible(visible) => {
                    self.steps = toggle_window(visible);
                    self.cursor = 0;
                    self.awaiting_visibility = false;
                    assert(self.steps@.skip(0) =~= self.steps@);
                },
                Response::Failed(message) => {
                    self.failure = Some(WindowError::OsOperation(message));
                },
                _ => {},
            }
            None
        } else if self.cursor < self.steps.len() {
            let step = self.steps[self.cursor];
            assert(self.steps@.skip(self.cursor as int).skip(1) =~= self.steps@.skip(
                self.cursor as int + 1,
            ));
            match response {
                Response::Completed => {
                    self.cursor = self.cursor + 1;
                    None
                },
                Response::Unsupported => {
                    self.cursor = self.cursor + 1;
                    None
                },
                Response::Failed(message) => {
                    let error = step.action.failure(message);
                    match step.on_failure {
                        OnFailure::Discard => {
                            self.cursor = self.cursor + 1;
                            Some(error)
                        },
                        OnFailure::Abort => {
                            self.failure = Some(error);
                            None
                        },
                    }
                },
                Response::Visible(_) => None,
            }
        } else {
            None
        }
    }

    /// The result of the operation so far: the failure that ended it, or
    /// success.
    pub fn result(&self) -> (result: Result<(), WindowError>)
        ensures
            result == self@.result(),
    {
        match &self.failure {
            Some(error) => Err(error.clone()),
            None => Ok(()),
        }
    }
}

} // verus!
