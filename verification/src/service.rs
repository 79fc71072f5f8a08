//! The service: the owner of the process slot, and its operations.
//!
//! The service itself launches nothing, signals nothing and waits for
//! nothing. An operation that needs such work is made of steps: the
//! application asks the service what to do, does it, and hands the outcome
//! back. The application serialises the steps of one operation and the
//! rounds of the watcher, so that each sees the state the previous one
//! left.

use crate::error::ServerError;
use crate::launch::{launcher_script, LaunchPlan, Platform};
use crate::model::{ServiceView, Teardown};
use crate::process::{ProcessSlot, ProcessView, Spawned};
use crate::status::{ServerStatus, StatusEvent};
use crate::watcher::{PollOutcome, WatchStep, Watcher};
use vstd::prelude::*;

verus! {

/// Seconds between the end of the stop and the start of a restart, for the
/// operating system to release what the old process held.
pub const RESTART_COOLDOWN_SECS: u64 = 2;

/// What a successful start asks of the application: publish the event,
/// capture each output stream that was wired, and run the watcher.
#[derive(Debug, Clone, Copy, PartialEq, Eq, Structural)]
pub struct Started {
    pub event: StatusEvent,
    pub capture_stdout: bool,
    pub capture_stderr: bool,
    pub watcher: Watcher,
}

/// A start that failed: why, and the handle of a process that was launched
/// but not taken over, for the caller to dispose of.
#[derive(Debug)]
pub struct StartFailure<H> {
    pub error: ServerError,
    pub rejected: Option<H>,
}

/// What a restart asks of the application after the slot was emptied:
/// tear the old process down, wait for the cool-down, then start.
#[derive(Debug)]
pub struct Restart<H> {
    pub handle: H,
    pub cooldown_secs: u64,
}

/// What the service would record of the outcome of a launch.
pub open spec fn launch_view<H>(launch: Result<Spawned<H>, String>) -> Result<ProcessView, String> {
    match launch {
        Ok(spawned) => Ok(spawned.process()),
        Err(reason) => Err(reason),
    }
}

/// The handle that a launch gave, if it gave one.
pub open spec fn launch_handle<H>(launch: Result<Spawned<H>, String>) -> Option<H> {
    match launch {
        Ok(spawned) => Some(spawned.handle),
        Err(_) => None,
    }
}

/// A payload by its text.
pub open spec fn payload_view(payload: Result<String, ServerError>) -> Result<
    Seq<char>,
    ServerError,
> {
    match payload {
        Ok(text) => Ok(text@),
        Err(error) => Err(error),
    }
}

/// The supervisor of the one managed process. It holds the process slot
/// and decides every change of it.
pub struct ServerService<H> {
    process: ProcessSlot<H>,
}

impl<H> View for ServerService<H> {
    type V = ServiceView;

    open spec fn view(&self) -> ServiceView {
        ServiceView { process: self.slot()@ }
    }
}

impl<H> ServerService<H> {
    /// The process slot of the service.
    pub closed spec fn slot(self) -> ProcessSlot<H> {
        self.process
    }

    /// The handle of the held process, if one is held.
    pub open spec fn handle(self) -> Option<H> {
        self.slot().handle()
    }

    /// A handle is held exactly while the status reports a running
    /// process.
    pub proof fn lemma_handle_iff_running(self)
        ensures
            self.handle() is Some <==> self@.status().running,
            self@.status().wf(),
    {
    }

    /// A service that holds no process.
    pub fn new() -> (service: Self)
        ensures
            service@ == ServiceView::initial(),
            service.handle() is None,
    {
        ServerService { process: ProcessSlot::new() }
    }

    /// A snapshot of the process slot.
    pub fn get_status(&self) -> (status: ServerStatus)
        ensures
            status == self@.status(),
            status.wf(),
    {
        match self.process.pid() {
            Some(pid) => ServerStatus::running(pid),
            None => ServerStatus::stopped(),
        }
    }

    /// First step of a start. `path` is the configured server directory,
    /// as read at the start of the operation. Gives the launch to
    /// perform, or the reason why nothing is to be launched.
    pub fn plan_start(&self, path: Option<String>, platform: Platform) -> (plan: Result<
        LaunchPlan,
        ServerError,
    >)
        ensures
            match plan {
                Ok(plan) => {
                    &&& self@.start_refusal(path) is None
                    &&& path == Some(plan.working_dir)
                    &&& plan.script@ == launcher_script(platform)
                },
                Err(error) => self@.start_refusal(path) == Some(error),
            },
    {
        if !self.process.is_empty() {
            return Err(ServerError::AlreadyRunning);
        }
        match path {
            None => Err(ServerError::PathNotConfigured),
            Some(working_dir) => Ok(
                LaunchPlan { working_dir, script: platform.script_name().to_owned() },
            ),
        }
    }

    /// Second step of a start: takes over the process that was launched.
    /// While a process is held nothing is taken over, and the handle of
    /// the launched process comes back with the failure.
    pub fn start_server(&mut self, launch: Result<Spawned<H>, String>) -> (started: Result<
        Started,
        StartFailure<H>,
    >)
        ensures
            final(self)@ == old(self)@.start(launch_view(launch)),
            match started {
                Ok(started) => {
                    &&& old(self)@.start_error(launch_view(launch)) is None
                    &&& launch matches Ok(spawned)
                    &&& started == Started {
                        event: StatusEvent { status: ServerStatus::of_running(spawned.pid) },
                        capture_stdout: spawned.stdout,
                        capture_stderr: spawned.stderr,
                        watcher: Watcher::Grace,
                    }
                    &&& final(self).handle() == Some(spawned.handle)
                },
                Err(failure) => {
                    &&& old(self)@.start_error(launch_view(launch)) == Some(failure.error)
                    &&& failure.rejected == launch_handle(launch)
                    &&& final(self).handle() == old(self).handle()
                },
            },
    {
        match launch {
            Err(reason) => {
                let error = if self.process.is_empty() {
                    ServerError::SpawnFailed(reason)
                } else {
                    ServerError::AlreadyRunning
                };
                Err(StartFailure { error, rejected: None })
            },
            Ok(spawned) => {
                let Spawned { handle, pid, stdin, stdout, stderr } = spawned;
                match self.process.adopt(handle, pid, stdin) {
                    Some(rejected) => Err(
                        StartFailure {
                            error: ServerError::AlreadyRunning,
                            rejected: Some(rejected),
                        },
                    ),
                    None => Ok(
                        Started {
                            event: StatusEvent { status: ServerStatus::running(pid) },
                            capture_stdout: stdout,
                            capture_stderr: stderr,
                            watcher: Watcher::new(),
                        },
                    ),
                }
            },
        }
    }

    /// First step of a stop: empties the slot and hands out the handle of
    /// the process to tear down. Fails when no process is held.
    pub fn stop_server(&mut self) -> (taken: Result<H, ServerError>)
        ensures
            final(self)@ == old(self)@.stop(),
            final(self).handle() is None,
            match taken {
                Ok(handle) => old(self).handle() == Some(handle),
                Err(error) => old(self)@.process is None && error == ServerError::NotRunning,
            },
    {
        match self.process.take() {
            Some(handle) => Ok(handle),
            None => Err(ServerError::NotRunning),
        }
    }

    /// Second step of a stop: what to report once the teardown is over.
    pub fn finish_stop(teardown: Teardown) -> (report: Result<StatusEvent, ServerError>)
        ensures
            report == teardown.result(),
    {
        match teardown {
            Teardown::KillFailed(reason) => Err(ServerError::KillFailed(reason)),
            Teardown::WaitFailed(reason) => Err(ServerError::WaitFailed(reason)),
            Teardown::Exited => Ok(StatusEvent { status: ServerStatus::stopped() }),
        }
    }

    /// First step of a restart: the first step of a stop, with the
    /// cool-down to keep between the end of the stop and the start.
    pub fn restart_server(&mut self) -> (restart: Result<Restart<H>, ServerError>)
        ensures
            final(self)@ == old(self)@.stop(),
            final(self).handle() is None,
            match restart {
                Ok(restart) => {
                    &&& old(self).handle() == Some(restart.handle)
                    &&& restart.cooldown_secs == RESTART_COOLDOWN_SECS
                },
                Err(error) => old(self)@.process is None && error == ServerError::NotRunning,
            },
    {
        match self.stop_server() {
            Ok(handle) => Ok(Restart { handle, cooldown_secs: RESTART_COOLDOWN_SECS }),
            Err(error) => Err(error),
        }
    }

    /// The bytes to write to the input channel of the held process for
    /// `command`. Fails, and gives nothing to write, when no process is
    /// held or the held process has no input channel.
    pub fn send_command(&self, command: &str) -> (payload: Result<String, ServerError>)
        ensures
            payload_view(payload) == self@.command(command@),
    {
        if self.process.is_empty() {
            Err(ServerError::NotRunning)
        } else if !self.process.has_stdin() {
            Err(ServerError::StdinUnavailable)
        } else {
            let mut payload = command.to_owned();
            payload.push('\n');
            Ok(payload)
        }
    }

    /// Access to the handle of the held process, to poll it or to write
    /// to its input channel. The state of the service does not change
    /// through it.
    pub fn handle_mut(&mut self) -> (held: Option<&mut H>)
        ensures
            final(self)@ == old(self)@,
            match held {
                None => old(self).handle() is None && final(self).handle() is None,
                Some(handle) => {
                    &&& old(self).handle() == Some(*handle)
                    &&& final(self).handle() == Some(*final(handle))
                },
            },
    {
        self.process.handle_mut()
    }

    /// One round of the termination watcher. `observed` is what a poll of
    /// the held process gave in this round, or `None` if there was no
    /// process to poll.
    pub fn watch(&mut self, observed: Option<PollOutcome>) -> (step: WatchStep)
        ensures
            step == old(self)@.watch_step(observed),
            final(self)@ == old(self)@.watch(observed),
            final(self).handle() == if observed == Some(PollOutcome::Exited) {
                None
            } else {
                old(self).handle()
            },
    {
        if self.process.is_empty() {
            return WatchStep::Exit(None);
        }
        match observed {
            Some(PollOutcome::Exited) => {
                let _ = self.process.take();
                WatchStep::Exit(Some(StatusEvent { status: ServerStatus::stopped() }))
            },
            Some(PollOutcome::Failed(_)) => WatchStep::Exit(None),
            Some(PollOutcome::StillRunning) | None => WatchStep::Continue,
        }
    }
}

} // verus!
