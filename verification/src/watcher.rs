//! What the termination watcher observes and what it does next.

use crate::service::ServerService;
use crate::status::StatusEvent;
use vstd::prelude::*;

verus! {

/// Seconds the watcher waits after the launch before its first round.
pub const WATCH_GRACE_SECS: u64 = 1;

/// Seconds the watcher waits at the start of every round, before it polls.
pub const WATCH_INTERVAL_SECS: u64 = 2;

/// What a non-blocking poll of the held process gave.
#[derive(Debug, Clone, PartialEq, Eq)]
pub enum PollOutcome {
    /// The process has exited.
    Exited,
    /// The process is still running.
    StillRunning,
    /// The poll itself failed.
    Failed(String),
}

/// What the watcher does after a round.
#[derive(Debug, Clone, Copy, PartialEq, Eq, Structural)]
pub enum WatchStep {
    /// Wait for the polling interval and poll again.
    Continue,
    /// End the watch, after publishing the event if there is one.
    Exit(Option<StatusEvent>),
}

/// The watcher of one process: where it stands between its launch and
/// its end.
#[derive(Debug, Clone, Copy, PartialEq, Eq, Structural)]
pub enum Watcher {
    /// Launched; no round made yet.
    Grace,
    /// At least one round made, the process was still there.
    Polling,
    /// Ended. It polls no more and publishes nothing.
    Done,
}

impl Watcher {
    /// The seconds to wait before the next round, or nothing when the
    /// watch has ended.
    pub open spec fn delay(self) -> Option<u64> {
        match self {
            Watcher::Grace => Some((WATCH_GRACE_SECS + WATCH_INTERVAL_SECS) as u64),
            Watcher::Polling => Some(WATCH_INTERVAL_SECS),
            Watcher::Done => None,
        }
    }

    /// Where the watcher stands after a round that gave `step`.
    pub open spec fn after(self, step: WatchStep) -> Watcher {
        if self is Done || step is Exit {
            Watcher::Done
        } else {
            Watcher::Polling
        }
    }

    /// Where the watcher stands after rounds that gave `steps`, one
    /// after the other.
    pub open spec fn after_all(self, steps: Seq<WatchStep>) -> Watcher
        decreases steps.len(),
    {
        if steps.len() == 0 {
            self
        } else {
            self.after_all(steps.drop_last()).after(steps.last())
        }
    }

    /// The number of events that the watcher publishes over rounds that
    /// gave `steps`: one for each round made before the watch ended that
    /// ended it with an event.
    pub open spec fn published(self, steps: Seq<WatchStep>) -> nat
        decreases steps.len(),
    {
        if steps.len() == 0 {
            0
        } else {
            let before = self.after_all(steps.drop_last());
            let last: nat = if !(before is Done) && steps.last() matches WatchStep::Exit(Some(_)) {
                1
            } else {
                0
            };
            self.published(steps.drop_last()) + last
        }
    }

    /// Whatever its rounds give, a watcher publishes at most one event,
    /// and once it has published one it has ended.
    pub proof fn lemma_publishes_at_most_once(self, steps: Seq<WatchStep>)
        ensures
            self.published(steps) <= 1,
            self.published(steps) == 1 ==> self.after_all(steps) is Done,
            self is Done ==> self.published(steps) == 0 && self.after_all(steps) is Done,
        decreases steps.len(),
    {
        if steps.len() > 0 {
            self.lemma_publishes_at_most_once(steps.drop_last());
        }
    }

    /// The watcher of a process that was just launched.
    pub fn new() -> (watcher: Watcher)
        ensures
            watcher is Grace,
    {
        Watcher::Grace
    }

    /// The seconds to wait before the next round: the grace delay and one
    /// polling interval before the first, one polling interval before
    /// every other. Nothing when the watch has ended.
    pub fn next_delay(&self) -> (secs: Option<u64>)
        ensures
            secs == self.delay(),
    {
        match self {
            Watcher::Grace => Some(WATCH_GRACE_SECS + WATCH_INTERVAL_SECS),
            Watcher::Polling => Some(WATCH_INTERVAL_SECS),
            Watcher::Done => None,
        }
    }

    /// One round of this watcher on `service`; gives the event to
    /// publish, if there is one. `observed` is what a poll of the held
    /// process gave, or `None` if there was no process to poll. A watcher
    /// that has ended leaves the service alone.
    pub fn round<H>(&mut self, service: &mut ServerService<H>, observed: Option<PollOutcome>) -> (event:
        Option<StatusEvent>)
        ensures
            *old(self) is Done ==> {
                &&& event is None
                &&& *final(self) is Done
                &&& *final(service) == *old(service)
            },
            !(*old(self) is Done) ==> {
                &&& final(service)@ == old(service)@.watch(observed)
                &&& *final(self) == old(self).after(old(service)@.watch_step(observed))
                &&& event == match old(service)@.watch_step(observed) {
                    WatchStep::Exit(event) => event,
                    WatchStep::Continue => None,
                }
                &&& final(service).handle() == if observed == Some(PollOutcome::Exited) {
                    None
                } else {
                    old(service).handle()
                }
            },
    {
        match self {
            Watcher::Done => None,
            _ => match service.watch(observed) {
                WatchStep::Continue => {
                    *self = Watcher::Polling;
                    None
                },
                WatchStep::Exit(event) => {
                    *self = Watcher::Done;
                    event
                },
            },
        }
    }
}

} // verus!
