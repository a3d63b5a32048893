//! The plan of each operation: which actions the host performs, in which
//! order, and which of them may fail without ending the plan.
//!
//! A failed change of click-through never ends a plan that also shows or
//! hides the window; every other failure does.

use vstd::prelude::*;

use crate::event::{ClosePolicy, Command, Event, TrayMenuItem};
use crate::protocol::{Action, OnFailure, Step};

verus! {

/// A step whose failure ends the plan.
pub open spec fn required(action: Action) -> Step {
    Step { action, on_failure: OnFailure::Abort }
}

/// A step whose failure is logged and passed over.
pub open spec fn tolerated(action: Action) -> Step {
    Step { action, on_failure: OnFailure::Discard }
}

/// Showing the window: click-through goes off first, so that the window
/// takes input the moment it appears; then the window is shown, focused and,
/// once it has its final geometry, centred.
pub open spec fn show_plan() -> Seq<Step> {
    seq![
        tolerated(Action::SetClickThrough { enabled: false }),
        required(Action::Show),
        required(Action::SetFocus),
        required(Action::Center),
    ]
}

/// Hiding the window: the window is hidden first, so that it is never seen
/// inert; then click-through goes on.
pub open spec fn hide_plan() -> Seq<Step> {
    seq![required(Action::Hide), tolerated(Action::SetClickThrough { enabled: true })]
}

/// Toggling: a visible window is hidden, a hidden one is shown.
pub open spec fn toggle_plan(visible: bool) -> Seq<Step> {
    if visible {
        hide_plan()
    } else {
        show_plan()
    }
}

/// The plan of a command of the front end. Every failure is reported to the
/// caller, that of a direct change of click-through too.
pub open spec fn command_plan(command: Command) -> Seq<Step> {
    match command {
        Command::SetClickThrough { enabled } => seq![
            required(Action::SetClickThrough { enabled }),
        ],
        Command::Resize { width, height } => seq![required(Action::SetSize { width, height })],
        Command::Hide => hide_plan(),
        Command::Show => show_plan(),
        Command::Focus => seq![required(Action::SetFocus)],
    }
}

/// A change of focus: click-through is on exactly while the window is
/// without focus.
pub open spec fn focus_plan(focused: bool) -> Seq<Step> {
    seq![tolerated(Action::SetClickThrough { enabled: !focused })]
}

/// A close request: the close is always refused; the window is hidden as
/// well only where the policy says so.
pub open spec fn close_plan(policy: ClosePolicy) -> Seq<Step> {
    match policy {
        ClosePolicy::SwallowOnly => seq![required(Action::PreventClose)],
        ClosePolicy::HideOnClose => seq![required(Action::PreventClose)] + hide_plan(),
    }
}

/// Quitting from the tray: the process ends with exit code 0, and nothing is
/// done to the window.
pub open spec fn quit_plan() -> Seq<Step> {
    seq![required(Action::Exit { code: 0 })]
}

/// The plan of an event that does not depend on whether the window is
/// visible. A toggling event has none: its plan waits for the answer of the
/// operating system.
pub open spec fn immediate_plan(event: Event, policy: ClosePolicy) -> Seq<Step> {
    match event {
        Event::TrayMenu(TrayMenuItem::Quit) => quit_plan(),
        Event::CloseRequested => close_plan(policy),
        Event::FocusChanged { focused } => focus_plan(focused),
        Event::Command(command) => command_plan(command),
        _ => Seq::empty(),
    }
}

/// The whole plan of an event, for a window that the operating system
/// reports as visible or not.
pub open spec fn event_plan(event: Event, visible: bool, policy: ClosePolicy) -> Seq<Step> {
    if event.is_toggle() {
        toggle_plan(visible)
    } else {
        immediate_plan(event, policy)
    }
}

fn must(action: Action) -> (step: Step)
    ensures
        step == required(action),
{
    Step { action, on_failure: OnFailure::Abort }
}

fn may(action: Action) -> (step: Step)
    ensures
        step == tolerated(action),
{
    Step { action, on_failure: OnFailure::Discard }
}

/// The plan that shows, focuses and centres the window.
pub fn show_main_window() -> (plan: Vec<Step>)
    ensures
        plan@ == show_plan(),
{
    vec![
        may(Action::SetClickThrough { enabled: false }),
        must(Action::Show),
        must(Action::SetFocus),
        must(Action::Center),
    ]
}

/// The plan that hides the window.
pub fn hide_main_window() -> (plan: Vec<Step>)
    ensures
        plan@ == hide_plan(),
{
    vec![must(Action::Hide), may(Action::SetClickThrough { enabled: true })]
}

/// The plan that toggles the window, given what the operating system has
/// just answered about its visibility.
pub fn toggle_window(visible: bool) -> (plan: Vec<Step>)
    ensures
        plan@ == toggle_plan(visible),
{
    if visible {
        hide_main_window()
    } else {
        show_main_window()
    }
}

/// The plan that gives the window the input focus and changes nothing else.
pub fn set_window_focus() -> (plan: Vec<Step>)
    ensures
        plan@ == command_plan(Command::Focus),
{
    vec![must(Action::SetFocus)]
}

/// The plan that sets the window's logical size and changes nothing else.
pub fn resize_window(width: u32, height: u32) -> (plan: Vec<Step>)
    ensures
        plan@ == command_plan(Command::Resize { width, height }),
{
    vec![must(Action::SetSize { width, height })]
}

/// The plan that turns click-through on or off by hand.
pub fn set_window_click_through(enabled: bool) -> (plan: Vec<Step>)
    ensures
        plan@ == command_plan(Command::SetClickThrough { enabled }),
{
    vec![must(Action::SetClickThrough { enabled })]
}

/// The plan of a command of the front end.
pub fn command(asked: Command) -> (plan: Vec<Step>)
    ensures
        plan@ == command_plan(asked),
{
    match asked {
        Command::SetClickThrough { enabled } => set_window_click_through(enabled),
        Command::Resize { width, height } => resize_window(width, height),
        Command::Hide => hide_main_window(),
        Command::Show => show_main_window(),
        Command::Focus => set_window_focus(),
    }
}

/// The plan that follows a change of focus.
pub fn focus_changed(focused: bool) -> (plan: Vec<Step>)
    ensures
        plan@ == focus_plan(focused),
{
    vec![may(Action::SetClickThrough { enabled: !focused })]
}

/// The plan that answers a close request.
pub fn close_requested(policy: ClosePolicy) -> (plan: Vec<Step>)
    ensures
        plan@ == close_plan(policy),
{
    match policy {
        ClosePolicy::SwallowOnly => vec![must(Action::PreventClose)],
        ClosePolicy::HideOnClose => {
            let plan = vec![
                must(Action::PreventClose),
                must(Action::Hide),
                may(Action::SetClickThrough { enabled: true }),
            ];
            assert(plan@ =~= close_plan(policy));
            plan
        },
    }
}

/// The plan that ends the process from the tray.
pub fn quit() -> (plan: Vec<Step>)
    ensures
        plan@ == quit_plan(),
{
    vec![must(Action::Exit { code: 0 })]
}

/// The plan of an event that needs no look at the window first; empty for a
/// toggling event.
pub fn immediate(event: Event, policy: ClosePolicy) -> (plan: Vec<Step>)
    ensures
        plan@ == immediate_plan(event, policy),
{
    match event {
        Event::TrayMenu(TrayMenuItem::Quit) => quit(),
        Event::CloseRequested => close_requested(policy),
        Event::FocusChanged { focused } => focus_changed(focused),
        Event::Command(asked) => command(asked),
        _ => Vec::new(),
    }
}

} // verus!
