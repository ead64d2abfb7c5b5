//! What can go wrong with the PID file and with killing the process it names.

use vstd::prelude::*;

verus! {

/// Why the PID file was not written. The operating system's own words are
/// carried as text.
#[derive(Debug, PartialEq, Eq)]
pub enum StorePidError {
    NoProjectDir,
    NotOpened(String),
    WriteFailed(String),
}

/// Why the process named by the PID file was not killed.
#[derive(Debug, PartialEq, Eq)]
pub enum KillError {
    NoProjectDir,
    NotOpened(String),
    CommandNotSpawned,
    CommandFailed(String),
}

impl StorePidError {
    pub open spec fn message_spec(self) -> Seq<char> {
        match self {
            StorePidError::NoProjectDir => "Failed to find project folder"@,
            StorePidError::NotOpened(e) => "Failed to open PID file: "@ + e@,
            StorePidError::WriteFailed(e) => "Failed to write PID to file: "@ + e@,
        }
    }

    /// The error as a line for the log.
    pub fn message(&self) -> (r: String)
        ensures
            r@ == self.message_spec(),
    {
        match self {
            StorePidError::NoProjectDir => "Failed to find project folder".to_owned(),
            StorePidError::NotOpened(e) => {
                let mut r = "Failed to open PID file: ".to_owned();
                r.append(e.as_str());
                r
            },
            StorePidError::WriteFailed(e) => {
                let mut r = "Failed to write PID to file: ".to_owned();
                r.append(e.as_str());
                r
            },
        }
    }
}

impl KillError {
    pub open spec fn message_spec(self) -> Seq<char> {
        match self {
            KillError::NoProjectDir => "Failed to find project folder"@,
            KillError::NotOpened(e) => "Failed to open PID file: "@ + e@,
            KillError::CommandNotSpawned => "Failed to spawn kill command"@,
            KillError::CommandFailed(e) => "Kill command failed: "@ + e@,
        }
    }

    /// The error as a line for the log.
    pub fn message(&self) -> (r: String)
        ensures
            r@ == self.message_spec(),
    {
        match self {
            KillError::NoProjectDir => "Failed to find project folder".to_owned(),
            KillError::NotOpened(e) => {
                let mut r = "Failed to open PID file: ".to_owned();
                r.append(e.as_str());
                r
            },
            KillError::CommandNotSpawned => "Failed to spawn kill command".to_owned(),
            KillError::CommandFailed(e) => {
                let mut r = "Kill command failed: ".to_owned();
                r.append(e.as_str());
                r
            },
        }
    }
}

} // verus!
