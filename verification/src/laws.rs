//! What holds of the window whatever events arrive: the click-through
//! policy is kept, hiding twice is hiding once, and toggling twice leads
//! back.
//!
//! Everything here is stated of [`ManagedWindow::after_event`], that is, of
//! plans whose every step succeeds.

use vstd::prelude::*;

use crate::event::{ClosePolicy, Command, Event};
use crate::plan::{hide_plan, show_plan};
use crate::style::{
    lemma_restyle_fixed_point, lemma_restyle_last_wins, lemma_restyle_touches_one_bit,
    with_click_through,
};
use crate::window::ManagedWindow;

verus! {

/// Whether handling the event on this window sets the click-through policy
/// aside. Three events do:
///
/// - a manual change of click-through that contradicts the policy: off for
///   a hidden window, on for a visible and focused one;
/// - a request for focus on a visible window that lets the mouse through,
///   which leaves click-through as it is until the operating system reports
///   the gain of focus;
/// - a report that a hidden window gained the focus.
pub open spec fn overrides_policy(window: ManagedWindow, event: Event) -> bool {
    match event {
        Event::Command(Command::SetClickThrough { enabled }) => {
            ||| !window.visible && !enabled
            ||| window.visible && window.focused && enabled
        },
        Event::Command(Command::Focus) => window.visible && window.click_through(),
        Event::FocusChanged { focused } => focused && !window.visible,
        _ => false,
    }
}

/// The window after a sequence of events, each handled to its end before
/// the next arrives.
pub open spec fn after_events(
    window: ManagedWindow,
    events: Seq<Event>,
    policy: ClosePolicy,
) -> ManagedWindow
    decreases events.len(),
{
    if events.len() == 0 {
        window
    } else {
        after_events(window.after_event(events[0], policy), events.skip(1), policy)
    }
}

/// Whether no event of the sequence sets the click-through policy aside in
/// the state in which it arrives.
pub open spec fn within_policy(
    window: ManagedWindow,
    events: Seq<Event>,
    policy: ClosePolicy,
) -> bool
    decreases events.len(),
{
    events.len() > 0 ==> {
        &&& !overrides_policy(window, events[0])
        &&& within_policy(window.after_event(events[0], policy), events.skip(1), policy)
    }
}

/// Showing turns click-through off and leaves the window visible, focused
/// and centred; size and the other style bits stay.
pub proof fn lemma_after_show(window: ManagedWindow)
    ensures
        window.after_steps(show_plan()) == (ManagedWindow {
            visible: true,
            focused: true,
            centered: true,
            ex_style: with_click_through(window.ex_style, false),
            ..window
        }),
{
    reveal_with_fuel(ManagedWindow::after_steps, 5);
}

/// Hiding leaves the window invisible with click-through on; focus, size,
/// position and the other style bits stay.
pub proof fn lemma_after_hide(window: ManagedWindow)
    ensures
        window.after_steps(hide_plan()) == (ManagedWindow {
            visible: false,
            ex_style: with_click_through(window.ex_style, true),
            ..window
        }),
{
    reveal_with_fuel(ManagedWindow::after_steps, 3);
}

/// The click-through policy is an invariant of event handling: if it holds
/// of the window and the event does not set it aside, it holds again once
/// the event has been handled.
pub proof fn lemma_event_keeps_policy(window: ManagedWindow, event: Event, policy: ClosePolicy)
    requires
        window.policy_holds(),
        !overrides_policy(window, event),
    ensures
        window.after_event(event, policy).policy_holds(),
{
    let seen = window.observed(event);
    lemma_after_show(seen);
    lemma_after_hide(seen);
    lemma_restyle_touches_one_bit(seen.ex_style, true);
    lemma_restyle_touches_one_bit(seen.ex_style, false);
    reveal_with_fuel(ManagedWindow::after_steps, 4);
    if event == Event::CloseRequested && policy == ClosePolicy::HideOnClose {
        lemma_after_hide(seen.after(crate::protocol::Action::PreventClose));
    }
}

/// An event that sets the policy aside does break it: the exceptions of
/// [`lemma_event_keeps_policy`] are no wider than they must be.
pub proof fn lemma_override_breaks_policy(
    window: ManagedWindow,
    event: Event,
    policy: ClosePolicy,
)
    requires
        window.policy_holds(),
        overrides_policy(window, event),
    ensures
        !window.after_event(event, policy).policy_holds(),
{
    let seen = window.observed(event);
    lemma_restyle_touches_one_bit(seen.ex_style, true);
    lemma_restyle_touches_one_bit(seen.ex_style, false);
    reveal_with_fuel(ManagedWindow::after_steps, 3);
}

/// The click-through policy holds in every state that is reached from one
/// in which it holds by events that do not set it aside.
pub proof fn lemma_policy_holds_throughout(
    window: ManagedWindow,
    events: Seq<Event>,
    policy: ClosePolicy,
)
    requires
        window.policy_holds(),
        within_policy(window, events, policy),
    ensures
        after_events(window, events, policy).policy_holds(),
    decreases events.len(),
{
    if events.len() > 0 {
        lemma_event_keeps_policy(window, events[0], policy);
        lemma_policy_holds_throughout(
            window.after_event(events[0], policy),
            events.skip(1),
            policy,
        );
    }
}

/// Hiding is idempotent: after `hide` the window is invisible and lets the
/// mouse through, whatever it was before, and a second `hide` changes
/// nothing.
pub proof fn lemma_hide_idempotent(window: ManagedWindow, policy: ClosePolicy)
    ensures
        ({
            let hide = Event::Command(Command::Hide);
            let hidden = window.after_event(hide, policy);
            &&& !hidden.visible
            &&& hidden.click_through()
            &&& hidden.policy_holds()
            &&& hidden.after_event(hide, policy) == hidden
        }),
{
    lemma_after_hide(window);
    lemma_restyle_touches_one_bit(window.ex_style, true);
    lemma_command_idempotent(window, Command::Hide, policy);
}

/// Every command of the front end is idempotent: given twice in a row, it
/// leaves the window as it does given once.
pub proof fn lemma_command_idempotent(window: ManagedWindow, command: Command, policy: ClosePolicy)
    ensures
        ({
            let once = window.after_event(Event::Command(command), policy);
            once.after_event(Event::Command(command), policy) == once
        }),
{
    let once = window.after_event(Event::Command(command), policy);
    lemma_after_show(window);
    lemma_after_show(once);
    lemma_after_hide(window);
    lemma_after_hide(once);
    lemma_restyle_last_wins(window.ex_style, true, true);
    lemma_restyle_last_wins(window.ex_style, false, false);
    reveal_with_fuel(ManagedWindow::after_steps, 2);
}

/// The report of gained focus that follows a show changes nothing: the show
/// has turned click-through off, and the report does not turn it on again.
pub proof fn lemma_focus_report_after_show(window: ManagedWindow, policy: ClosePolicy)
    ensures
        ({
            let shown = window.after_event(Event::Command(Command::Show), policy);
            shown.after_event(Event::FocusChanged { focused: true }, policy) == shown
        }),
{
    lemma_after_show(window);
    lemma_restyle_last_wins(window.ex_style, false, false);
    reveal_with_fuel(ManagedWindow::after_steps, 2);
}

/// Two toggles in a row bring back the visibility with which the window
/// started, and leave click-through as the policy has it for that
/// visibility: on for a hidden window, off for a visible one.
pub proof fn lemma_toggle_twice(
    window: ManagedWindow,
    first: Event,
    second: Event,
    policy: ClosePolicy,
)
    requires
        first.is_toggle(),
        second.is_toggle(),
    ensures
        ({
            let back = window.after_event(first, policy).after_event(second, policy);
            &&& back.visible == window.visible
            &&& back.click_through() == !window.visible
            &&& back.ex_style == with_click_through(window.ex_style, !window.visible)
            &&& back.width == window.width
            &&& back.height == window.height
        }),
{
    let once = window.after_event(first, policy);
    lemma_after_show(window);
    lemma_after_hide(window);
    lemma_after_show(once);
    lemma_after_hide(once);
    lemma_restyle_last_wins(window.ex_style, window.visible, !window.visible);
    lemma_restyle_touches_one_bit(window.ex_style, !window.visible);
}

/// Toggle symmetry: two toggles in a row return the window to the
/// visibility and the click-through state, indeed to the very style word,
/// with which it started, provided that it started hidden with click-through
/// on or visible with click-through off.
pub proof fn lemma_toggle_symmetry(
    window: ManagedWindow,
    first: Event,
    second: Event,
    policy: ClosePolicy,
)
    requires
        first.is_toggle(),
        second.is_toggle(),
        window.click_through() == !window.visible,
    ensures
        ({
            let back = window.after_event(first, policy).after_event(second, policy);
            &&& back.visible == window.visible
            &&& back.click_through() == window.click_through()
            &&& back.ex_style == window.ex_style
        }),
{
    lemma_toggle_twice(window, first, second, policy);
    lemma_restyle_fixed_point(window.ex_style, !window.visible);
}

} // verus!
