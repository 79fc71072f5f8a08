//! The service as a state machine over plain values: its state, and what
//! each operation does to it.

use crate::error::ServerError;
use crate::process::ProcessView;
use crate::status::{ServerStatus, StatusEvent};
use crate::watcher::{PollOutcome, WatchStep};
use vstd::prelude::*;

verus! {

/// The state of the service: what the process slot records.
pub struct ServiceView {
    pub process: Option<ProcessView>,
}

/// How the teardown of a process taken out of the slot went.
#[derive(Debug, Clone, PartialEq, Eq)]
pub enum Teardown {
    /// The termination signal could not be sent.
    KillFailed(String),
    /// The signal was sent, but waiting for the exit failed.
    WaitFailed(String),
    /// The process was signalled and has fully exited.
    Exited,
}

impl Teardown {
    /// What a stop reports once the teardown is over: the notification to
    /// publish, or the failure.
    pub open spec fn result(self) -> Result<StatusEvent, ServerError> {
        match self {
            Teardown::KillFailed(reason) => Err(ServerError::KillFailed(reason)),
            Teardown::WaitFailed(reason) => Err(ServerError::WaitFailed(reason)),
            Teardown::Exited => Ok(StatusEvent { status: ServerStatus::of_stopped() }),
        }
    }
}

impl ServiceView {
    /// No process.
    pub open spec fn initial() -> ServiceView {
        ServiceView { process: None }
    }

    /// The snapshot that a status query gives.
    pub open spec fn status(self) -> ServerStatus {
        match self.process {
            Some(process) => ServerStatus::of_running(process.pid),
            None => ServerStatus::of_stopped(),
        }
    }

    /// Why a start is refused before anything is launched: a process is
    /// already held, or else no server directory is configured.
    pub open spec fn start_refusal(self, path: Option<String>) -> Option<ServerError> {
        if self.process is Some {
            Some(ServerError::AlreadyRunning)
        } else if path is None {
            Some(ServerError::PathNotConfigured)
        } else {
            None
        }
    }

    /// Why a start fails when the outcome of the launch is handed in: a
    /// process is already held, or else the launch itself failed.
    pub open spec fn start_error(self, launch: Result<ProcessView, String>) -> Option<
        ServerError,
    > {
        if self.process is Some {
            Some(ServerError::AlreadyRunning)
        } else {
            match launch {
                Ok(_) => None,
                Err(reason) => Some(ServerError::SpawnFailed(reason)),
            }
        }
    }

    /// The state after a start: the launched process is held if the slot
    /// was empty and the launch succeeded; otherwise nothing changes.
    pub open spec fn start(self, launch: Result<ProcessView, String>) -> ServiceView {
        match launch {
            Ok(process) if self.process is None => ServiceView { process: Some(process) },
            _ => self,
        }
    }

    /// The state after a stop: the slot is empty.
    pub open spec fn stop(self) -> ServiceView {
        ServiceView { process: None }
    }

    /// The state after a round of the watcher: the slot is emptied when
    /// the held process was seen to have exited.
    pub open spec fn watch(self, observed: Option<PollOutcome>) -> ServiceView {
        if observed == Some(PollOutcome::Exited) {
            self.stop()
        } else {
            self
        }
    }

    /// What the watcher does after a round. With an empty slot it ends
    /// in silence, whatever was observed. With a held process it ends
    /// with a notification when the process has exited, ends in silence
    /// when the poll failed, and goes on otherwise.
    pub open spec fn watch_step(self, observed: Option<PollOutcome>) -> WatchStep {
        if self.process is None {
            WatchStep::Exit(None)
        } else {
            match observed {
                Some(PollOutcome::Exited) => WatchStep::Exit(
                    Some(StatusEvent { status: ServerStatus::of_stopped() }),
                ),
                Some(PollOutcome::Failed(_)) => WatchStep::Exit(None),
                Some(PollOutcome::StillRunning) | None => WatchStep::Continue,
            }
        }
    }

    /// What is to be written to the input channel of the process for a
    /// command: the text and a line feed. Refused when no process is held,
    /// or else when the held process has no input channel.
    pub open spec fn command(self, text: Seq<char>) -> Result<Seq<char>, ServerError> {
        match self.process {
            None => Err(ServerError::NotRunning),
            Some(process) => if process.stdin {
                Ok(text.push('\n'))
            } else {
                Err(ServerError::StdinUnavailable)
            },
        }
    }
}

} // verus!
