use spotlight_window::error::WindowError;
use spotlight_window::event::{ClosePolicy, Command, Event, TrayMenuItem};
use spotlight_window::operation::Operation;
use spotlight_window::protocol::{Action, Request, Response};

fn failed(text: &str) -> Response {
    Response::Failed(String::from(text))
}

fn perform(action: Action) -> Option<Request> {
    Some(Request::Perform(action))
}

#[test]
fn toggle_asks_for_visibility_first() {
    for event in [Event::TrayLeftClick, Event::Hotkey, Event::TrayMenu(TrayMenuItem::Show)] {
        let operation: Operation = Operation::begin(event, ClosePolicy::SwallowOnly);
        assert_eq!(operation.request(), Some(Request::QueryVisible));
        assert!(!operation.is_finished());
    }
}

#[test]
fn toggle_of_a_hidden_window_shows_it() {
    let mut operation: Operation = Operation::begin(Event::Hotkey, ClosePolicy::SwallowOnly);
    assert_eq!(operation.respond(Response::Visible(false)), None);
    assert_eq!(operation.request(), perform(Action::SetClickThrough { enabled: false }));
    assert_eq!(operation.respond(Response::Completed), None);
    assert_eq!(operation.request(), perform(Action::Show));
    assert_eq!(operation.respond(Response::Completed), None);
    assert_eq!(operation.request(), perform(Action::SetFocus));
    assert_eq!(operation.respond(Response::Completed), None);
    assert_eq!(operation.request(), perform(Action::Center));
    assert!(!operation.is_finished());
    assert_eq!(operation.respond(Response::Completed), None);
    assert_eq!(operation.request(), None);
    assert!(operation.is_finished());
    assert_eq!(operation.result(), Ok(()));
}

#[test]
fn toggle_of_a_visible_window_hides_it() {
    let mut operation: Operation = Operation::begin(Event::TrayLeftClick, ClosePolicy::SwallowOnly);
    assert_eq!(operation.respond(Response::Visible(true)), None);
    assert_eq!(operation.request(), perform(Action::Hide));
    assert_eq!(operation.respond(Response::Completed), None);
    assert_eq!(operation.request(), perform(Action::SetClickThrough { enabled: true }));
    assert_eq!(operation.respond(Response::Completed), None);
    assert_eq!(operation.request(), None);
    assert_eq!(operation.result(), Ok(()));
}

#[test]
fn toggle_ends_when_visibility_cannot_be_read() {
    let mut operation: Operation = Operation::begin(Event::Hotkey, ClosePolicy::SwallowOnly);
    assert_eq!(operation.respond(failed("no such window")), None);
    assert_eq!(operation.request(), None);
    assert!(operation.is_finished());
    assert_eq!(
        operation.result(),
        Err(WindowError::OsOperation(String::from("no such window")))
    );
}

#[test]
fn answer_without_visibility_leaves_the_query_open() {
    let mut operation: Operation = Operation::begin(Event::Hotkey, ClosePolicy::SwallowOnly);
    assert_eq!(operation.respond(Response::Completed), None);
    assert_eq!(operation.request(), Some(Request::QueryVisible));
    assert_eq!(operation.respond(Response::Unsupported), None);
    assert_eq!(operation.request(), Some(Request::QueryVisible));
    assert_eq!(operation.respond(Response::Visible(true)), None);
    assert_eq!(operation.request(), perform(Action::Hide));
}

#[test]
fn report_of_visibility_is_no_answer_to_an_action() {
    let mut operation: Operation =
        Operation::begin(Event::Command(Command::Hide), ClosePolicy::SwallowOnly);
    assert_eq!(operation.request(), perform(Action::Hide));
    assert_eq!(operation.respond(Response::Visible(false)), None);
    assert_eq!(operation.request(), perform(Action::Hide));
    assert_eq!(operation.result(), Ok(()));
}

#[test]
fn failed_show_ends_the_operation() {
    let mut operation: Operation =
        Operation::begin(Event::Command(Command::Show), ClosePolicy::SwallowOnly);
    assert_eq!(operation.request(), perform(Action::SetClickThrough { enabled: false }));
    assert_eq!(operation.respond(Response::Completed), None);
    assert_eq!(operation.request(), perform(Action::Show));
    assert_eq!(operation.respond(failed("rejected")), None);
    assert_eq!(operation.request(), None);
    assert!(operation.is_finished());
    assert_eq!(operation.result(), Err(WindowError::OsOperation(String::from("rejected"))));
}

#[test]
fn failed_focus_and_center_end_the_operation() {
    let mut focus: Operation =
        Operation::begin(Event::Command(Command::Show), ClosePolicy::SwallowOnly);
    focus.respond(Response::Completed);
    focus.respond(Response::Completed);
    assert_eq!(focus.request(), perform(Action::SetFocus));
    assert_eq!(focus.respond(failed("no focus")), None);
    assert_eq!(focus.request(), None);
    assert_eq!(focus.result(), Err(WindowError::OsOperation(String::from("no focus"))));

    let mut center: Operation =
        Operation::begin(Event::Command(Command::Show), ClosePolicy::SwallowOnly);
    center.respond(Response::Completed);
    center.respond(Response::Completed);
    center.respond(Response::Completed);
    assert_eq!(center.request(), perform(Action::Center));
    assert_eq!(center.respond(failed("no monitor")), None);
    assert_eq!(center.request(), None);
    assert_eq!(center.result(), Err(WindowError::OsOperation(String::from("no monitor"))));
}

#[test]
fn failed_click_through_does_not_stop_a_show() {
    let mut operation: Operation =
        Operation::begin(Event::Command(Command::Show), ClosePolicy::SwallowOnly);
    assert_eq!(operation.request(), perform(Action::SetClickThrough { enabled: false }));
    assert_eq!(
        operation.respond(failed("style rejected")),
        Some(WindowError::OsStyle(String::from("style rejected")))
    );
    assert_eq!(operation.request(), perform(Action::Show));
    assert_eq!(operation.respond(Response::Completed), None);
    assert_eq!(operation.respond(Response::Completed), None);
    assert_eq!(operation.respond(Response::Completed), None);
    assert!(operation.is_finished());
    assert_eq!(operation.result(), Ok(()));
}

#[test]
fn failed_click_through_does_not_fail_a_hide() {
    let mut operation: Operation = Operation::begin(Event::TrayLeftClick, ClosePolicy::SwallowOnly);
    operation.respond(Response::Visible(true));
    assert_eq!(operation.respond(Response::Completed), None);
    assert_eq!(operation.request(), perform(Action::SetClickThrough { enabled: true }));
    assert_eq!(
        operation.respond(failed("style rejected")),
        Some(WindowError::OsStyle(String::from("style rejected")))
    );
    assert_eq!(operation.request(), None);
    assert_eq!(operation.result(), Ok(()));
}

#[test]
fn failed_hide_leaves_click_through_alone() {
    let mut operation: Operation =
        Operation::begin(Event::Command(Command::Hide), ClosePolicy::SwallowOnly);
    assert_eq!(operation.request(), perform(Action::Hide));
    assert_eq!(operation.respond(failed("cannot hide")), None);
    assert_eq!(operation.request(), None);
    assert_eq!(operation.result(), Err(WindowError::OsOperation(String::from("cannot hide"))));
}

#[test]
fn failed_manual_click_through_is_reported_as_a_style_error() {
    let event: Event = Event::Command(Command::SetClickThrough { enabled: true });
    let mut operation: Operation = Operation::begin(event, ClosePolicy::SwallowOnly);
    assert_eq!(operation.request(), perform(Action::SetClickThrough { enabled: true }));
    assert_eq!(operation.respond(failed("Not a Windows window")), None);
    assert_eq!(operation.request(), None);
    assert_eq!(
        operation.result(),
        Err(WindowError::OsStyle(String::from("Not a Windows window")))
    );
    assert_eq!(operation.result().unwrap_err().message(), "Not a Windows window");
}

#[test]
fn failed_resize_and_focus_are_reported_as_operation_errors() {
    let resize: Event = Event::Command(Command::Resize { width: 800, height: 600 });
    let mut operation: Operation = Operation::begin(resize, ClosePolicy::SwallowOnly);
    assert_eq!(operation.request(), perform(Action::SetSize { width: 800, height: 600 }));
    assert_eq!(operation.respond(failed("too large")), None);
    assert_eq!(operation.result(), Err(WindowError::OsOperation(String::from("too large"))));

    let mut focus: Operation =
        Operation::begin(Event::Command(Command::Focus), ClosePolicy::SwallowOnly);
    assert_eq!(focus.request(), perform(Action::SetFocus));
    assert_eq!(focus.respond(failed("denied")), None);
    assert_eq!(focus.result(), Err(WindowError::OsOperation(String::from("denied"))));
}

#[test]
fn unsupported_click_through_counts_as_done() {
    let event: Event = Event::Command(Command::SetClickThrough { enabled: true });
    let mut manual: Operation = Operation::begin(event, ClosePolicy::SwallowOnly);
    assert_eq!(manual.respond(Response::Unsupported), None);
    assert!(manual.is_finished());
    assert_eq!(manual.result(), Ok(()));

    let mut focus: Operation =
        Operation::begin(Event::FocusChanged { focused: false }, ClosePolicy::SwallowOnly);
    assert_eq!(focus.request(), perform(Action::SetClickThrough { enabled: true }));
    assert_eq!(focus.respond(Response::Unsupported), None);
    assert!(focus.is_finished());
    assert_eq!(focus.result(), Ok(()));
}

#[test]
fn unsupported_click_through_keeps_the_toggle_going() {
    let mut operation: Operation = Operation::begin(Event::Hotkey, ClosePolicy::SwallowOnly);
    operation.respond(Response::Visible(false));
    assert_eq!(operation.respond(Response::Unsupported), None);
    assert_eq!(operation.request(), perform(Action::Show));
    operation.respond(Response::Completed);
    operation.respond(Response::Completed);
    operation.respond(Response::Completed);
    assert!(operation.is_finished());
    assert_eq!(operation.result(), Ok(()));
}

#[test]
fn focus_lost_enables_click_through() {
    let mut operation: Operation =
        Operation::begin(Event::FocusChanged { focused: false }, ClosePolicy::SwallowOnly);
    assert_eq!(operation.request(), perform(Action::SetClickThrough { enabled: true }));
    assert_eq!(operation.respond(Response::Completed), None);
    assert_eq!(operation.request(), None);
}

#[test]
fn focus_gained_disables_click_through() {
    let mut operation: Operation =
        Operation::begin(Event::FocusChanged { focused: true }, ClosePolicy::SwallowOnly);
    assert_eq!(operation.request(), perform(Action::SetClickThrough { enabled: false }));
    assert_eq!(operation.respond(Response::Completed), None);
    assert_eq!(operation.request(), None);
}

#[test]
fn failure_after_a_focus_change_is_only_logged() {
    let mut operation: Operation =
        Operation::begin(Event::FocusChanged { focused: true }, ClosePolicy::SwallowOnly);
    assert_eq!(
        operation.respond(failed("style rejected")),
        Some(WindowError::OsStyle(String::from("style rejected")))
    );
    assert!(operation.is_finished());
    assert_eq!(operation.result(), Ok(()));
}

#[test]
fn close_request_is_only_refused() {
    let mut operation: Operation = Operation::begin(Event::CloseRequested, ClosePolicy::default());
    assert_eq!(operation.request(), perform(Action::PreventClose));
    assert_eq!(operation.respond(Response::Completed), None);
    assert_eq!(operation.request(), None);
    assert_eq!(operation.result(), Ok(()));
}

#[test]
fn close_request_hides_where_the_policy_says_so() {
    let mut operation: Operation =
        Operation::begin(Event::CloseRequested, ClosePolicy::HideOnClose);
    assert_eq!(operation.request(), perform(Action::PreventClose));
    operation.respond(Response::Completed);
    assert_eq!(operation.request(), perform(Action::Hide));
    operation.respond(Response::Completed);
    assert_eq!(operation.request(), perform(Action::SetClickThrough { enabled: true }));
    operation.respond(Response::Completed);
    assert_eq!(operation.request(), None);
}

#[test]
fn tray_quit_exits_with_code_zero() {
    for policy in [ClosePolicy::SwallowOnly, ClosePolicy::HideOnClose] {
        let operation: Operation = Operation::begin(Event::TrayMenu(TrayMenuItem::Quit), policy);
        assert_eq!(operation.request(), perform(Action::Exit { code: 0 }));
    }
}

#[test]
fn finished_operation_takes_no_answer() {
    let mut done: Operation =
        Operation::begin(Event::Command(Command::Focus), ClosePolicy::SwallowOnly);
    done.respond(Response::Completed);
    assert!(done.is_finished());
    assert_eq!(done.respond(failed("late")), None);
    assert_eq!(done.respond(Response::Visible(true)), None);
    assert_eq!(done.request(), None);
    assert_eq!(done.result(), Ok(()));

    let mut broken: Operation =
        Operation::begin(Event::Command(Command::Focus), ClosePolicy::SwallowOnly);
    broken.respond(failed("first"));
    assert_eq!(broken.respond(failed("second")), None);
    assert_eq!(broken.respond(Response::Completed), None);
    assert_eq!(broken.request(), None);
    assert_eq!(broken.result(), Err(WindowError::OsOperation(String::from("first"))));
}

#[test]
fn response_is_cloned_as_it_is() {
    for response in [
        Response::Visible(true),
        Response::Visible(false),
        Response::Completed,
        Response::Unsupported,
        failed("text"),
    ] {
        assert_eq!(response.clone(), response);
    }
}

#[test]
fn action_failure_by_kind() {
    assert_eq!(
        Action::SetClickThrough { enabled: true }.failure(String::from("a")),
        WindowError::OsStyle(String::from("a"))
    );
    for action in [
        Action::Show,
        Action::Hide,
        Action::SetFocus,
        Action::Center,
        Action::SetSize { width: 1, height: 2 },
        Action::PreventClose,
        Action::Exit { code: 0 },
    ] {
        assert_eq!(action.failure(String::from("b")), WindowError::OsOperation(String::from("b")));
    }
}
