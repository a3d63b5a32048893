//! The events that reach the controller: tray, hotkey, window notifications
//! and the commands of the front end.

use vstd::prelude::*;
use vstd::string::*;

verus! {

/// An entry of the tray menu.
#[derive(Debug, Clone, Copy, PartialEq, Eq, Structural)]
pub enum TrayMenuItem {
    Show,
    Quit,
}

impl TrayMenuItem {
    /// The identifier under which the host reports a selection of the entry.
    pub open spec fn spec_id(self) -> Seq<char> {
        match self {
            TrayMenuItem::Show => "show"@,
            TrayMenuItem::Quit => "quit"@,
        }
    }

    /// The text that the entry shows.
    pub open spec fn spec_label(self) -> Seq<char> {
        match self {
            TrayMenuItem::Show => "Show Spotlight"@,
            TrayMenuItem::Quit => "Quit"@,
        }
    }

    /// The identifier under which the host reports a selection of the entry.
    pub fn id(&self) -> (id: &'static str)
        ensures
            id@ == self.spec_id(),
    {
        match self {
            TrayMenuItem::Show => "show",
            TrayMenuItem::Quit => "quit",
        }
    }

    /// The text that the entry shows.
    pub fn label(&self) -> (label: &'static str)
        ensures
            label@ == self.spec_label(),
    {
        match self {
            TrayMenuItem::Show => "Show Spotlight",
            TrayMenuItem::Quit => "Quit",
        }
    }

    /// The entry with this identifier, if there is one.
    pub open spec fn with_id(id: Seq<char>) -> Option<TrayMenuItem> {
        if id == "quit"@ {
            Some(TrayMenuItem::Quit)
        } else if id == "show"@ {
            Some(TrayMenuItem::Show)
        } else {
            None
        }
    }

    /// The entry with this identifier; `None` for an identifier that no entry
    /// has.
    pub fn from_id(id: &str) -> (item: Option<TrayMenuItem>)
        ensures
            item == TrayMenuItem::with_id(id@),
    {
        let id = String::from_str(id);
        if id == String::from_str("quit") {
            Some(TrayMenuItem::Quit)
        } else if id == String::from_str("show") {
            Some(TrayMenuItem::Show)
        } else {
            None
        }
    }
}

/// Every entry is found again by its identifier.
pub proof fn lemma_menu_item_by_id(item: TrayMenuItem)
    ensures
        TrayMenuItem::with_id(item.spec_id()) == Some(item),
{
    reveal_strlit("show");
    reveal_strlit("quit");
    assert("show"@[0] != "quit"@[0]);
}

/// The entries of the tray menu, in the order in which they are shown.
pub fn tray_menu() -> (items: Vec<TrayMenuItem>)
    ensures
        items@ == seq![TrayMenuItem::Show, TrayMenuItem::Quit],
{
    vec![TrayMenuItem::Show, TrayMenuItem::Quit]
}

/// A request of the front end.
#[derive(Debug, Clone, Copy, PartialEq, Eq, Structural)]
pub enum Command {
    /// Override click-through by hand, outside the focus-driven policy.
    SetClickThrough { enabled: bool },
    /// Set the window's logical size.
    Resize { width: u32, height: u32 },
    /// Hide the window.
    Hide,
    /// Show, focus and centre the window.
    Show,
    /// Give the window the input focus.
    Focus,
}

/// Something that happened and that the controller reacts to.
#[derive(Debug, Clone, Copy, PartialEq, Eq, Structural)]
pub enum Event {
    /// The tray icon was clicked with the left button.
    TrayLeftClick,
    /// An entry of the tray menu was selected.
    TrayMenu(TrayMenuItem),
    /// The global hotkey fired.
    Hotkey,
    /// The operating system asks to close the window.
    CloseRequested,
    /// The window gained or lost the input focus.
    FocusChanged { focused: bool },
    /// The front end asks for an operation.
    Command(Command),
}

impl Event {
    /// Whether the event toggles the window between hidden and shown.
    pub open spec fn is_toggle(self) -> bool {
        self is TrayLeftClick || self is Hotkey || self == Event::TrayMenu(TrayMenuItem::Show)
    }

    /// Whether the event toggles the window between hidden and shown.
    pub fn toggles(&self) -> (toggles: bool)
        ensures
            toggles == self.is_toggle(),
    {
        match self {
            Event::TrayLeftClick => true,
            Event::Hotkey => true,
            Event::TrayMenu(TrayMenuItem::Show) => true,
            _ => false,
        }
    }
}

/// What a close request does to the window besides being refused.
#[derive(Debug, Clone, Copy, PartialEq, Eq, Structural)]
pub enum ClosePolicy {
    /// The close is swallowed and the window stays as it is.
    SwallowOnly,
    /// The close is swallowed and the window is hidden.
    HideOnClose,
}

impl Default for ClosePolicy {
    fn default() -> (policy: ClosePolicy)
        ensures
            policy == ClosePolicy::SwallowOnly,
    {
        ClosePolicy::SwallowOnly
    }
}

} // verus!
