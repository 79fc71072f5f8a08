//! What holds of the service and of the log over sequences of
//! operations.
//!
//! The operations that change a state are written as values, a sequence
//! of them is run from a state, and the statements below are proved for
//! every state and every sequence. Operations that only read (the status
//! query, the log snapshot, the planning of a start, the payload of a
//! command) take their object by shared reference and are left out. The
//! process slot and the log are separate objects: no operation on one
//! reaches the other.
//!
//! Each operation is one step on its object, made while the application
//! holds the lock of that object. Whatever callers, captures and watchers
//! run side by side, what happens to one object is some sequence of such
//! steps; what is proved of every sequence holds of every such run.

use crate::logs::{cleared, log_entry, pumped, ReadOutcome, Stream};
use crate::model::{ServiceView, Teardown};
use crate::process::ProcessView;
use crate::status::{ServerStatus, StatusEvent};
use crate::watcher::{PollOutcome, WatchStep};
use vstd::prelude::*;

verus! {

/// An operation that can change the state of the service, with what the
/// application hands in.
pub enum Op {
    /// The second step of a start, with the outcome of the launch.
    Start(Result<ProcessView, String>),
    /// A stop, or the stop of a restart, with how its teardown went.
    Stop(Teardown),
    /// A round of the watcher, with what it observed.
    Watch(Option<PollOutcome>),
}

/// An operation that can change the log.
pub enum LogOp {
    /// A step of the capture of a stream, with what was read.
    Pump(Stream, ReadOutcome),
    /// The clearing of the log.
    Clear,
}

impl Op {
    /// The operation ends the life of a held process in the slot: a stop,
    /// or a round of the watcher that saw the exit.
    pub open spec fn ends_process(self) -> bool {
        self is Stop || self == Op::Watch(Some(PollOutcome::Exited))
    }

    /// The operation hands in a launched process.
    pub open spec fn launches(self) -> bool {
        self matches Op::Start(Ok(_))
    }
}

impl LogOp {
    /// The log entry that the operation appends, if it appends one.
    pub open spec fn captured(self) -> Seq<Seq<char>> {
        match self {
            LogOp::Pump(stream, ReadOutcome::Line(raw)) => seq![log_entry(stream, raw@)],
            _ => Seq::empty(),
        }
    }

    /// The log after the operation.
    pub open spec fn apply(self, logs: Seq<Seq<char>>) -> Seq<Seq<char>> {
        match self {
            LogOp::Pump(stream, read) => pumped(logs, stream, read),
            LogOp::Clear => cleared(),
        }
    }

    /// The log entry that the operation appends from `stream`, if it
    /// appends one from there.
    pub open spec fn captured_from(self, stream: Stream) -> Seq<Seq<char>> {
        match self {
            LogOp::Pump(source, ReadOutcome::Line(raw)) if source == stream => seq![
                log_entry(stream, raw@),
            ],
            _ => Seq::empty(),
        }
    }
}

/// The log entries that the operations of `ops` append, in their order.
pub open spec fn captured(ops: Seq<LogOp>) -> Seq<Seq<char>>
    decreases ops.len(),
{
    if ops.len() == 0 {
        Seq::empty()
    } else {
        captured(ops.drop_last()) + ops.last().captured()
    }
}

/// The log entries that the operations of `ops` append from `stream`, in
/// their order.
pub open spec fn captured_from(ops: Seq<LogOp>, stream: Stream) -> Seq<Seq<char>>
    decreases ops.len(),
{
    if ops.len() == 0 {
        Seq::empty()
    } else {
        captured_from(ops.drop_last(), stream) + ops.last().captured_from(stream)
    }
}

/// `whole` holds the elements of `a` and of `b` and no others, those of
/// `a` in the order of `a` and those of `b` in the order of `b`.
pub open spec fn interleaves<A>(whole: Seq<A>, a: Seq<A>, b: Seq<A>) -> bool
    decreases whole.len(),
{
    if whole.len() == 0 {
        a.len() == 0 && b.len() == 0
    } else {
        ||| (a.len() > 0 && a.last() == whole.last() && interleaves(
            whole.drop_last(),
            a.drop_last(),
            b,
        ))
        ||| (b.len() > 0 && b.last() == whole.last() && interleaves(
            whole.drop_last(),
            a,
            b.drop_last(),
        ))
    }
}

/// The log after the operations of `ops`, one after the other.
pub open spec fn log_after(logs: Seq<Seq<char>>, ops: Seq<LogOp>) -> Seq<Seq<char>>
    decreases ops.len(),
{
    if ops.len() == 0 {
        logs
    } else {
        ops.last().apply(log_after(logs, ops.drop_last()))
    }
}

impl ServiceView {
    /// The state after one operation.
    pub open spec fn step(self, op: Op) -> ServiceView {
        match op {
            Op::Start(launch) => self.start(launch),
            Op::Stop(_) => self.stop(),
            Op::Watch(observed) => self.watch(observed),
        }
    }

    /// The state after the operations of `ops`, one after the other.
    pub open spec fn run(self, ops: Seq<Op>) -> ServiceView
        decreases ops.len(),
    {
        if ops.len() == 0 {
            self
        } else {
            self.run(ops.drop_last()).step(ops.last())
        }
    }

    /// The notification that a stop publishes: the one that its teardown
    /// reports, if a process was held.
    pub open spec fn stop_notification(self, teardown: Teardown) -> Option<StatusEvent> {
        match teardown.result() {
            Ok(event) if self.process is Some => Some(event),
            _ => None,
        }
    }

    /// The notification that a round of the watcher publishes.
    pub open spec fn watch_notification(self, observed: Option<PollOutcome>) -> Option<
        StatusEvent,
    > {
        match self.watch_step(observed) {
            WatchStep::Exit(event) => event,
            WatchStep::Continue => None,
        }
    }

    /// The notification that a start publishes: the running status of
    /// the launched process, if it was taken over.
    pub open spec fn start_notification(self, launch: Result<ProcessView, String>) -> Option<
        StatusEvent,
    > {
        match launch {
            Ok(process) if self.process is None => Some(
                StatusEvent { status: ServerStatus::of_running(process.pid) },
            ),
            _ => None,
        }
    }

    /// The notification that an operation publishes in this state.
    pub open spec fn notification(self, op: Op) -> Option<StatusEvent> {
        match op {
            Op::Start(launch) => self.start_notification(launch),
            Op::Stop(teardown) => self.stop_notification(teardown),
            Op::Watch(observed) => self.watch_notification(observed),
        }
    }

    /// The number of notifications of the stopped status that the
    /// operations of `ops` publish, run one after the other from this
    /// state.
    pub open spec fn stop_notifications(self, ops: Seq<Op>) -> nat
        decreases ops.len(),
    {
        if ops.len() == 0 {
            0
        } else {
            let last: nat = if self.run(ops.drop_last()).notification(ops.last()) == Some(
                StatusEvent { status: ServerStatus::of_stopped() },
            ) {
                1
            } else {
                0
            };
            self.stop_notifications(ops.drop_last()) + last
        }
    }
}

/// A snapshot of the slot names a process id exactly when it reports a
/// running process.
pub proof fn lemma_status_well_formed(s: ServiceView)
    ensures
        s.status().wf(),
        s.status().running == (s.process is Some),
{
}

/// While a process is held a start changes nothing and is refused as
/// already running, before the launch and after it.
pub proof fn lemma_start_refused_while_running(
    s: ServiceView,
    path: Option<String>,
    launch: Result<ProcessView, String>,
)
    requires
        s.process is Some,
    ensures
        s.start_refusal(path) == Some(crate::error::ServerError::AlreadyRunning),
        s.start_error(launch) == Some(crate::error::ServerError::AlreadyRunning),
        s.start(launch) == s,
{
}

/// A held process stays the held process, and the status stays what it
/// is, over any operations of which none ends the process: starts are
/// refused, and rounds of the watcher that see no exit change nothing.
pub proof fn lemma_running_until_ended(s: ServiceView, ops: Seq<Op>)
    requires
        s.process is Some,
        forall|i: int| 0 <= i < ops.len() ==> !(#[trigger] ops[i]).ends_process(),
    ensures
        s.run(ops).process == s.process,
        s.run(ops).status() == s.status(),
    decreases ops.len(),
{
    if ops.len() > 0 {
        let init = ops.drop_last();
        assert forall|i: int| 0 <= i < init.len() implies !(#[trigger] init[i]).ends_process() by {
            assert(init[i] == ops[i]);
        }
        lemma_running_until_ended(s, init);
        assert(!ops[ops.len() - 1].ends_process());
    }
}

/// An empty slot stays empty, and the status stays stopped, over any
/// operations of which none hands in a launched process: further stops
/// and rounds of the watcher change nothing.
pub proof fn lemma_stopped_until_started(s: ServiceView, ops: Seq<Op>)
    requires
        s.process is None,
        forall|i: int| 0 <= i < ops.len() ==> !(#[trigger] ops[i]).launches(),
    ensures
        s.run(ops).process is None,
        s.run(ops).status() == ServerStatus::of_stopped(),
    decreases ops.len(),
{
    if ops.len() > 0 {
        let init = ops.drop_last();
        assert forall|i: int| 0 <= i < init.len() implies !(#[trigger] init[i]).launches() by {
            assert(init[i] == ops[i]);
        }
        lemma_stopped_until_started(s, init);
        assert(!ops[ops.len() - 1].launches());
    }
}

/// The status over the life of one process. From the successful start
/// the status is running with the process id of the launch, through all
/// operations before the one that ends the process; from that operation
/// on it is stopped, through all operations that hand in no new process.
pub proof fn lemma_status_over_a_life(
    s: ServiceView,
    process: ProcessView,
    during: Seq<Op>,
    end: Op,
    after: Seq<Op>,
)
    requires
        s.process is None,
        forall|i: int| 0 <= i < during.len() ==> !(#[trigger] during[i]).ends_process(),
        end.ends_process(),
        forall|i: int| 0 <= i < after.len() ==> !(#[trigger] after[i]).launches(),
    ensures
        s.start(Ok(process)).status() == ServerStatus::of_running(process.pid),
        s.start(Ok(process)).run(during).status() == ServerStatus::of_running(process.pid),
        s.start(Ok(process)).run(during).step(end).status() == ServerStatus::of_stopped(),
        s.start(Ok(process)).run(during).step(end).run(after).status()
            == ServerStatus::of_stopped(),
{
    let running = s.start(Ok(process));
    lemma_running_until_ended(running, during);
    let ended = running.run(during).step(end);
    lemma_stopped_until_started(ended, after);
}

/// A stop whose teardown succeeds and a round of the watcher, on the same
/// held process and in either order, publish exactly one notification
/// between them, and it reports the stopped status. Whichever comes first
/// empties the slot; the other finds it empty and publishes nothing.
pub proof fn lemma_one_stop_notification(s: ServiceView, observed: Option<PollOutcome>)
    requires
        s.process is Some,
    ensures
        s.stop_notification(Teardown::Exited) == Some(
            StatusEvent { status: ServerStatus::of_stopped() },
        ),
        s.stop().watch_notification(observed) is None,
        observed == Some(PollOutcome::Exited) ==> {
            &&& s.watch_notification(observed) == Some(
                StatusEvent { status: ServerStatus::of_stopped() },
            )
            &&& s.watch(observed).stop_notification(Teardown::Exited) is None
        },
        observed != Some(PollOutcome::Exited) ==> {
            &&& s.watch_notification(observed) is None
            &&& s.watch(observed).stop_notification(Teardown::Exited) == Some(
                StatusEvent { status: ServerStatus::of_stopped() },
            )
        },
{
}

/// However stops whose teardown succeeds and rounds of watchers follow
/// one another on a held process, the stopped status is published
/// exactly once if one of them ends the process, and not at all if none
/// does: never twice, and never by an operation that found the slot
/// empty.
pub proof fn lemma_stop_published_once(s: ServiceView, ops: Seq<Op>)
    requires
        s.process is Some,
        forall|i: int| 0 <= i < ops.len() ==> !(#[trigger] ops[i]).launches(),
        forall|i: int|
            0 <= i < ops.len() ==> ((#[trigger] ops[i]) matches Op::Stop(teardown)
                ==> teardown is Exited),
    ensures
        s.run(ops).process is None ==> s.stop_notifications(ops) == 1,
        s.run(ops).process is Some ==> s.stop_notifications(ops) == 0,
        s.run(ops).process is None <==> exists|i: int|
            0 <= i < ops.len() && (#[trigger] ops[i]).ends_process(),
    decreases ops.len(),
{
    if ops.len() > 0 {
        let init = ops.drop_last();
        assert forall|i: int| 0 <= i < init.len() implies !(#[trigger] init[i]).launches() by {
            assert(init[i] == ops[i]);
        }
        assert forall|i: int| 0 <= i < init.len() implies ((#[trigger] init[i]) matches Op::Stop(
            teardown,
        ) ==> teardown is Exited) by {
            assert(init[i] == ops[i]);
        }
        lemma_stop_published_once(s, init);
        let last = ops[ops.len() - 1];
        assert(!last.launches());
        assert(last matches Op::Stop(teardown) ==> teardown is Exited);
        if exists|i: int| 0 <= i < init.len() && (#[trigger] init[i]).ends_process() {
            let i = choose|i: int| 0 <= i < init.len() && (#[trigger] init[i]).ends_process();
            assert(ops[i].ends_process());
        }
        if last.ends_process() {
            assert(ops[ops.len() - 1].ends_process());
        }
        if exists|i: int| 0 <= i < ops.len() && (#[trigger] ops[i]).ends_process() {
            let i = choose|i: int| 0 <= i < ops.len() && (#[trigger] ops[i]).ends_process();
            if i < init.len() {
                assert(init[i].ends_process());
            }
        }
    }
}

/// Over operations that do not clear the log, the log grows by the
/// entries of the lines read, in the order in which they were read, and
/// nothing else is added or lost.
pub proof fn lemma_log_grows_in_order(logs: Seq<Seq<char>>, ops: Seq<LogOp>)
    requires
        forall|i: int| 0 <= i < ops.len() ==> !(#[trigger] ops[i] is Clear),
    ensures
        log_after(logs, ops) == logs + captured(ops),
    decreases ops.len(),
{
    if ops.len() == 0 {
        assert(logs + captured(ops) == logs);
    } else {
        let init = ops.drop_last();
        assert forall|i: int| 0 <= i < init.len() implies !(#[trigger] init[i] is Clear) by {
            assert(init[i] == ops[i]);
        }
        lemma_log_grows_in_order(logs, init);
        assert(!(ops[ops.len() - 1] is Clear));
        assert(logs + captured(init) + ops.last().captured() == logs + captured(ops));
    }
}

/// Right after the log was cleared it is empty, and from then on it holds
/// exactly the entries of the lines read since, in the order in which
/// they were read.
pub proof fn lemma_log_after_clear(logs: Seq<Seq<char>>, ops: Seq<LogOp>)
    requires
        forall|i: int| 0 <= i < ops.len() ==> !(#[trigger] ops[i] is Clear),
    ensures
        LogOp::Clear.apply(logs) == Seq::<Seq<char>>::empty(),
        log_after(LogOp::Clear.apply(logs), ops) == captured(ops),
{
    lemma_log_grows_in_order(LogOp::Clear.apply(logs), ops);
    assert(Seq::<Seq<char>>::empty() + captured(ops) == captured(ops));
}

/// What is captured holds the entries of the two streams and no others,
/// those of each stream in the order in which its lines were read. How
/// the entries of one stream stand among those of the other is not
/// fixed.
pub proof fn lemma_captured_keeps_stream_order(ops: Seq<LogOp>)
    ensures
        interleaves(
            captured(ops),
            captured_from(ops, Stream::Stdout),
            captured_from(ops, Stream::Stderr),
        ),
    decreases ops.len(),
{
    if ops.len() > 0 {
        let init = ops.drop_last();
        lemma_captured_keeps_stream_order(init);
        let out = captured_from(init, Stream::Stdout);
        let err = captured_from(init, Stream::Stderr);
        match ops.last() {
            LogOp::Pump(stream, ReadOutcome::Line(raw)) => {
                let entry = log_entry(stream, raw@);
                assert(captured(ops) == captured(init).push(entry));
                assert(captured(ops).drop_last() == captured(init));
                if stream == Stream::Stdout {
                    assert(captured_from(ops, Stream::Stdout) == out.push(entry));
                    assert(captured_from(ops, Stream::Stdout).drop_last() == out);
                    assert(captured_from(ops, Stream::Stderr) == err);
                } else {
                    assert(captured_from(ops, Stream::Stderr) == err.push(entry));
                    assert(captured_from(ops, Stream::Stderr).drop_last() == err);
                    assert(captured_from(ops, Stream::Stdout) == out);
                }
            },
            _ => {
                assert(captured(ops) == captured(init));
                assert(captured_from(ops, Stream::Stdout) == out);
                assert(captured_from(ops, Stream::Stderr) == err);
            },
        }
    }
}

/// What was captured over two stretches of operations is what was
/// captured over the first, followed by what was captured over the
/// second: later lines never come before earlier ones.
pub proof fn lemma_captured_concat(a: Seq<LogOp>, b: Seq<LogOp>)
    ensures
        captured(a + b) == captured(a) + captured(b),
    decreases b.len(),
{
    if b.len() == 0 {
        assert(a + b == a);
        assert(captured(a) + captured(b) == captured(a));
    } else {
        lemma_captured_concat(a, b.drop_last());
        assert((a + b).drop_last() == a + b.drop_last());
        assert((a + b).last() == b.last());
        assert(captured(a) + captured(b.drop_last()) + b.last().captured() == captured(a) + (
            captured(b.drop_last()) + b.last().captured()));
    }
}

/// A restart of a running service whose teardown and launch both succeed
/// publishes the stopped status, then the running status of the new
/// process, and leaves the new process held. The new status differs from
/// the old one whenever the operating system gave the new process another
/// process id than the old one had.
pub proof fn lemma_restart_replaces_process(
    s: ServiceView,
    path: String,
    launched: ProcessView,
)
    requires
        s.process is Some,
    ensures
        s.stop_notification(Teardown::Exited) == Some(
            StatusEvent { status: ServerStatus::of_stopped() },
        ),
        s.stop().start_refusal(Some(path)) is None,
        s.stop().start_error(Ok(launched)) is None,
        s.stop().start(Ok(launched)).process == Some(launched),
        s.stop().start(Ok(launched)).status() == ServerStatus::of_running(launched.pid),
        launched.pid != s.process->0.pid ==> s.stop().start(Ok(launched)).status() != s.status(),
{
}

} // verus!
