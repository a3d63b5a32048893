//! What can go wrong when the host is asked to change the window.

use vstd::prelude::*;

verus! {

/// A rejected operating-system call, with the host's own description of it.
#[derive(Debug, PartialEq, Eq)]
pub enum WindowError {
    /// The extended style word could not be read or written.
    OsStyle(String),
    /// A show, hide, focus, resize, centre or visibility call was rejected.
    OsOperation(String),
}

impl Clone for WindowError {
    fn clone(&self) -> (copy: WindowError)
        ensures
            copy == *self,
    {
        match self {
            WindowError::OsStyle(message) => WindowError::OsStyle(message.clone()),
            WindowError::OsOperation(message) => WindowError::OsOperation(message.clone()),
        }
    }
}

impl WindowError {
    /// The human-readable text of the error.
    pub open spec fn text(self) -> Seq<char> {
        match self {
            WindowError::OsStyle(message) => message@,
            WindowError::OsOperation(message) => message@,
        }
    }

    /// The human-readable text of the error, as it is handed to a caller that
    /// takes errors as plain strings.
    pub fn message(&self) -> (text: String)
        ensures
            text@ == self.text(),
    {
        match self {
            WindowError::OsStyle(message) => message.clone(),
            WindowError::OsOperation(message) => message.clone(),
        }
    }
}

} // verus!
