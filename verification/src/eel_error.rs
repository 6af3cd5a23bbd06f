//! The engine's error taxonomy. Every failure of a session is reported
//! through one of these; none of them escapes as a process-level fault.

use vstd::prelude::*;
use vstd::string::StringExecFns;

verus! {

/// What went wrong, with the caller-facing detail text.
#[derive(Clone, Debug, PartialEq, Eq)]
pub enum EelError {
    Io(String),
    Interrupted(String),
    FreeSpace(String),
    PermissionError(String),
    ConnectionError(String),
    InvalidIP(String),
}

impl EelError {
    /// The rendered message: a fixed prefix naming the category, then the
    /// detail text.
    pub open spec fn message_spec(self) -> Seq<char> {
        match self {
            EelError::Io(m) => "IO error: "@ + m@,
            EelError::Interrupted(m) => "Interrupted: "@ + m@,
            EelError::FreeSpace(m) => "Not enough free space to write the file: "@ + m@,
            EelError::PermissionError(m) => "Permission error: "@ + m@,
            EelError::ConnectionError(m) => "Connection error, server is either unreachable or connection was refused: "@
                + m@,
            EelError::InvalidIP(m) => "Invalid IP: "@ + m@,
        }
    }

    /// Renders the error as text.
    pub fn message(&self) -> (r: String)
        ensures
            r@ == self.message_spec(),
    {
        match self {
            EelError::Io(m) => {
                let mut s = String::new();
                s.append("IO error: ");
                s.append(m.as_str());
                s
            },
            EelError::Interrupted(m) => {
                let mut s = String::new();
                s.append("Interrupted: ");
                s.append(m.as_str());
                s
            },
            EelError::FreeSpace(m) => {
                let mut s = String::new();
                s.append("Not enough free space to write the file: ");
                s.append(m.as_str());
                s
            },
            EelError::PermissionError(m) => {
                let mut s = String::new();
                s.append("Permission error: ");
                s.append(m.as_str());
                s
            },
            EelError::ConnectionError(m) => {
                let mut s = String::new();
                s.append(
                    "Connection error, server is either unreachable or connection was refused: ",
                );
                s.append(m.as_str());
                s
            },
            EelError::InvalidIP(m) => {
                let mut s = String::new();
                s.append("Invalid IP: ");
                s.append(m.as_str());
                s
            },
        }
    }
}

} // verus!
