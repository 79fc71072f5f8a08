//! Snapshots of the process slot and the notifications sent to subscribers.

use vstd::prelude::*;

verus! {

/// What a caller learns of the managed process: whether one is held, and
/// its process id.
#[derive(Debug, Clone, Copy, PartialEq, Eq, Structural)]
pub struct ServerStatus {
    pub running: bool,
    pub pid: Option<u32>,
}

impl ServerStatus {
    /// A status names a process id exactly when it reports a running
    /// process.
    pub open spec fn wf(self) -> bool {
        self.running == self.pid.is_some()
    }

    /// The status of a service that holds the process `pid`.
    pub open spec fn of_running(pid: u32) -> ServerStatus {
        ServerStatus { running: true, pid: Some(pid) }
    }

    /// The status of a service that holds no process.
    pub open spec fn of_stopped() -> ServerStatus {
        ServerStatus { running: false, pid: None }
    }

    pub fn running(pid: u32) -> (status: ServerStatus)
        ensures
            status == ServerStatus::of_running(pid),
            status.wf(),
    {
        ServerStatus { running: true, pid: Some(pid) }
    }

    pub fn stopped() -> (status: ServerStatus)
        ensures
            status == ServerStatus::of_stopped(),
            status.wf(),
    {
        ServerStatus { running: false, pid: None }
    }
}

/// Notification that the process slot changed; it carries the status
/// after the change. Nothing keeps it once it is handed out.
#[derive(Debug, Clone, Copy, PartialEq, Eq, Structural)]
pub struct StatusEvent {
    pub status: ServerStatus,
}

/// Notification that lines were appended to the log buffer.
#[derive(Debug, Clone, PartialEq, Eq)]
pub struct LogEvent {
    pub lines: Vec<String>,
}

} // verus!
