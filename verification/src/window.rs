//! The managed window as the controller sees it, and a host that always
//! succeeds.
//!
//! [`ManagedWindow`] holds what an operating system knows of the overlay
//! window, as plain values. Its spec functions say what each action does to
//! the window when the operating system carries it out; the plans of the
//! controller are stated and proved against them. The executable methods are
//! a host without a display: they perform requests on the value itself.

use vstd::prelude::*;

use crate::event::{ClosePolicy, Event};
use crate::operation::Operation;
use crate::plan::event_plan;
use crate::protocol::{actions_of, Action, Request, Response, Step};
use crate::style::{click_through_enabled, is_click_through, restyle, with_click_through};

verus! {

/// The presentation state of the overlay window.
#[derive(Debug, Clone, Copy, PartialEq, Eq, Structural)]
pub struct ManagedWindow {
    /// Whether the window is shown.
    pub visible: bool,
    /// Whether the window has the input focus.
    pub focused: bool,
    /// The extended style word, which holds the click-through bit.
    pub ex_style: u32,
    /// The logical width.
    pub width: u32,
    /// The logical height.
    pub height: u32,
    /// Whether the window stands in the centre of its display.
    pub centered: bool,
}

impl ManagedWindow {
    /// Whether mouse input passes through the window.
    pub open spec fn click_through(self) -> bool {
        is_click_through(self.ex_style)
    }

    /// The click-through policy: a hidden window lets the mouse through, and
    /// a window that is visible and focused does not. A visible window
    /// without focus may be either.
    pub open spec fn policy_holds(self) -> bool {
        &&& !self.visible ==> self.click_through()
        &&& self.visible && self.focused ==> !self.click_through()
    }

    /// The window after the operating system has carried out one action.
    /// Visibility, focus, style, size and position are independent of each
    /// other, except that a window whose size changes no longer stands in
    /// the centre.
    pub open spec fn after(self, action: Action) -> ManagedWindow {
        match action {
            Action::Show => ManagedWindow { visible: true, ..self },
            Action::Hide => ManagedWindow { visible: false, ..self },
            Action::SetFocus => ManagedWindow { focused: true, ..self },
            Action::Center => ManagedWindow { centered: true, ..self },
            Action::SetSize { width, height } => ManagedWindow {
                width,
                height,
                centered: self.centered && width == self.width && height == self.height,
                ..self
            },
            Action::SetClickThrough { enabled } => ManagedWindow {
                ex_style: with_click_through(self.ex_style, enabled),
                ..self
            },
            Action::PreventClose => self,
            Action::Exit { code } => self,
        }
    }

    /// The window after every step of a plan has been carried out in order.
    pub open spec fn after_steps(self, steps: Seq<Step>) -> ManagedWindow
        decreases steps.len(),
    {
        if steps.len() == 0 {
            self
        } else {
            self.after(steps[0].action).after_steps(steps.skip(1))
        }
    }

    /// The window as an event itself reports it, before anything is done
    /// about it: a change of focus is the only event that tells of a change.
    pub open spec fn observed(self, event: Event) -> ManagedWindow {
        match event {
            Event::FocusChanged { focused } => ManagedWindow { focused, ..self },
            _ => self,
        }
    }

    /// The window after an event has been handled and every step of its plan
    /// has succeeded. Whether the window is visible is read at the moment at
    /// which the event is handled.
    pub open spec fn after_event(self, event: Event, policy: ClosePolicy) -> ManagedWindow {
        self.observed(event).after_steps(event_plan(event, self.visible, policy))
    }

    /// The window as the host leaves it at startup: hidden, without focus,
    /// transparent to the mouse.
    pub fn hidden(ex_style: u32, width: u32, height: u32) -> (window: ManagedWindow)
        ensures
            window == (ManagedWindow {
                visible: false,
                focused: false,
                ex_style: with_click_through(ex_style, true),
                width,
                height,
                centered: false,
            }),
            window.click_through(),
            window.policy_holds(),
    {
        ManagedWindow {
            visible: false,
            focused: false,
            ex_style: restyle(ex_style, true),
            width,
            height,
            centered: false,
        }
    }

    /// Whether mouse input passes through the window.
    pub fn is_click_through(&self) -> (enabled: bool)
        ensures
            enabled == self.click_through(),
    {
        click_through_enabled(self.ex_style)
    }

    /// Takes note of what an event reports of the window.
    pub fn observe(&mut self, event: Event)
        ensures
            *final(self) == old(self).observed(event),
    {
        match event {
            Event::FocusChanged { focused } => {
                self.focused = focused;
            },
            _ => {},
        }
    }

    /// Performs one request as an operating system that never refuses.
    pub fn perform(&mut self, request: Request) -> (response: Response)
        ensures
            match request {
                Request::QueryVisible => *final(self) == *old(self) && response
                    == Response::Visible(old(self).visible),
                Request::Perform(action) => *final(self) == old(self).after(action) && response
                    == Response::Completed,
            },
    {
        match request {
            Request::QueryVisible => Response::Visible(self.visible),
            Request::Perform(action) => {
                match action {
                    Action::Show => {
                        self.visible = true;
                    },
                    Action::Hide => {
                        self.visible = false;
                    },
                    Action::SetFocus => {
                        self.focused = true;
                    },
                    Action::Center => {
                        self.centered = true;
                    },
                    Action::SetSize { width, height } => {
                        self.centered = self.centered && width == self.width && height
                            == self.height;
                        self.width = width;
                        self.height = height;
                    },
                    Action::SetClickThrough { enabled } => {
                        self.ex_style = restyle(self.ex_style, enabled);
                    },
                    Action::PreventClose => {},
                    Action::Exit { code } => {},
                }
                Response::Completed
            },
        }
    }

    /// Handles an event from beginning to end on this window: begins the
    /// operation, performs each of its requests and answers it, until none
    /// is left. Every request succeeds here, so the whole plan is carried
    /// out. Returns the actions in the order in which they were performed.
    pub fn deliver(&mut self, event: Event, policy: ClosePolicy) -> (performed: Vec<Action>)
        ensures
            *final(self) == old(self).after_event(event, policy),
            performed@ == actions_of(event_plan(event, old(self).visible, policy)),
    {
        let ghost target = self.after_event(event, policy);
        let ghost plan = event_plan(event, self.visible, policy);
        let ghost visible = self.visible;
        self.observe(event);
        let mut performed: Vec<Action> = Vec::new();
        let mut operation = Operation::begin(event, policy);
        let mut request = operation.request();
        while request.is_some()
            invariant
                request == operation@.request(),
                operation@.failure is None,
                plan == event_plan(event, visible, policy),
                if operation@.awaiting_visibility {
                    &&& event.is_toggle()
                    &&& self.visible == visible
                    &&& performed@.len() == 0
                    &&& target == self.after_steps(plan)
                } else {
                    &&& target == self.after_steps(operation@.remaining)
                    &&& performed@ + actions_of(operation@.remaining) == actions_of(plan)
                },
            decreases operation@.awaiting_visibility as int, operation@.remaining.len(),
        {
            let asked = request.unwrap();
            let ghost before = operation@;
            let response = self.perform(asked);
            match asked {
                Request::Perform(action) => {
                    performed.push(action);
                },
                Request::QueryVisible => {},
            }
            operation.respond(response);
            request = operation.request();
            assert(performed@ + actions_of(operation@.remaining) =~= actions_of(plan)) by {
                if !before.awaiting_visibility {
                    assert(actions_of(before.remaining) =~= seq![before.remaining[0].action]
                        + actions_of(before.remaining.skip(1)));
                }
            }
        }
        assert(performed@ =~= performed@ + actions_of(operation@.remaining));
        performed
    }
}

} // verus!
