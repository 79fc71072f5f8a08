//! Why an operation of the service was refused or failed.

use vstd::prelude::*;

verus! {

/// The failures of the service's operations. Each is handed back to the
/// caller of the operation; none is retried.
#[derive(Debug, Clone, PartialEq, Eq)]
pub enum ServerError {
    /// No server directory has been configured.
    PathNotConfigured,
    /// A process is already held.
    AlreadyRunning,
    /// No process is held.
    NotRunning,
    /// The launcher script could not be started; the reason is the
    /// operating system's.
    SpawnFailed(String),
    /// The held process has no input channel.
    StdinUnavailable,
    /// The termination signal could not be sent.
    KillFailed(String),
    /// Waiting for the signalled process to exit failed.
    WaitFailed(String),
}

impl ServerError {
    /// The sentence shown to the user for each failure.
    pub open spec fn message_text(self) -> Seq<char> {
        match self {
            ServerError::PathNotConfigured => "Server path not set"@,
            ServerError::AlreadyRunning => "Server is already running"@,
            ServerError::NotRunning => "Server is not running"@,
            ServerError::SpawnFailed(_) => "Failed to start server"@,
            ServerError::StdinUnavailable => "Server stdin not available"@,
            ServerError::KillFailed(_) => "Failed to kill server process"@,
            ServerError::WaitFailed(_) => "Failed to wait for server process"@,
        }
    }

    pub fn message(&self) -> (text: String)
        ensures
            text@ == self.message_text(),
    {
        match self {
            ServerError::PathNotConfigured => "Server path not set".to_owned(),
            ServerError::AlreadyRunning => "Server is already running".to_owned(),
            ServerError::NotRunning => "Server is not running".to_owned(),
            ServerError::SpawnFailed(_) => "Failed to start server".to_owned(),
            ServerError::StdinUnavailable => "Server stdin not available".to_owned(),
            ServerError::KillFailed(_) => "Failed to kill server process".to_owned(),
            ServerError::WaitFailed(_) => "Failed to wait for server process".to_owned(),
        }
    }
}

} // verus!
