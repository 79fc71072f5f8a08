//! The log buffer, and the capture of the output streams of the process
//! into it.
//!
//! The buffer is a resource of its own, apart from the process slot: the
//! application guards the two by separate locks, so that appending a line
//! never waits for an operation on the process.

use crate::sanitize::{strip_ansi, strip_ansi_codes};
use crate::status::LogEvent;
use vstd::prelude::*;

verus! {

/// The output stream of the process that a line was read from.
#[derive(Debug, Clone, Copy, PartialEq, Eq, Structural)]
pub enum Stream {
    Stdout,
    Stderr,
}

/// The marker in front of every entry that came from the error stream.
pub open spec fn error_marker() -> Seq<char> {
    "[ERROR] "@
}

/// The entry that a raw line of `stream` becomes: the line without its
/// escape sequences, behind the error marker when it came from the error
/// stream.
pub open spec fn log_entry(stream: Stream, raw: Seq<char>) -> Seq<char> {
    match stream {
        Stream::Stdout => strip_ansi(raw),
        Stream::Stderr => error_marker() + strip_ansi(raw),
    }
}

/// Builds the log entry for one raw line.
pub fn format_entry(stream: Stream, raw: &str) -> (entry: String)
    ensures
        entry@ == log_entry(stream, raw@),
{
    let clean = strip_ansi_codes(raw);
    match stream {
        Stream::Stdout => clean,
        Stream::Stderr => {
            let mut entry = "[ERROR] ".to_owned();
            entry.append(clean.as_str());
            entry
        },
    }
}

/// What one read from an output stream of the process gave.
#[derive(Debug, Clone, PartialEq, Eq)]
pub enum ReadOutcome {
    /// One line, without its line terminator.
    Line(String),
    /// The stream is closed: the process exited or closed the stream.
    Closed,
    /// The read failed.
    Failed(String),
}

/// What the capture of a stream does after a read.
#[derive(Debug, Clone, PartialEq, Eq)]
pub enum PumpStep {
    /// Publish the event and read on.
    Publish(LogEvent),
    /// End the capture of this stream.
    Stop,
}

/// The log after the capture of `stream` handled one read: a line
/// appends its entry; the end of the stream and a failed read change
/// nothing.
pub open spec fn pumped(logs: Seq<Seq<char>>, stream: Stream, read: ReadOutcome) -> Seq<Seq<char>> {
    match read {
        ReadOutcome::Line(raw) => logs.push(log_entry(stream, raw@)),
        _ => logs,
    }
}

/// The log after it was cleared.
pub open spec fn cleared() -> Seq<Seq<char>> {
    Seq::empty()
}

/// The sanitized lines captured so far, oldest first.
pub struct LogBuffer {
    lines: Vec<String>,
}

impl View for LogBuffer {
    type V = Seq<Seq<char>>;

    closed spec fn view(&self) -> Seq<Seq<char>> {
        self.lines.deep_view()
    }
}

impl LogBuffer {
    /// A log without entries.
    pub fn new() -> (buffer: Self)
        ensures
            buffer@ == cleared(),
    {
        LogBuffer { lines: Vec::new() }
    }

    /// Appends one entry behind all that are there.
    pub fn append(&mut self, entry: String)
        ensures
            final(self)@ == old(self)@.push(entry@),
    {
        self.lines.push(entry);
        assert(self.lines.deep_view() =~= old(self).lines.deep_view().push(entry@));
    }

    /// One step of the capture of `stream`: a line is sanitized, logged
    /// and handed back for publishing; at the end of the stream, or when
    /// the read failed, the capture ends.
    pub fn pump(&mut self, stream: Stream, read: ReadOutcome) -> (step: PumpStep)
        ensures
            final(self)@ == pumped(old(self)@, stream, read),
            match read {
                ReadOutcome::Line(raw) => {
                    &&& step matches PumpStep::Publish(event)
                    &&& event.lines.deep_view() == seq![log_entry(stream, raw@)]
                },
                _ => step is Stop,
            },
    {
        match read {
            ReadOutcome::Line(raw) => {
                let entry = format_entry(stream, raw.as_str());
                self.append(entry.clone());
                let mut lines = Vec::new();
                lines.push(entry);
                assert(lines.deep_view() =~= seq![log_entry(stream, raw@)]);
                PumpStep::Publish(LogEvent { lines })
            },
            _ => PumpStep::Stop,
        }
    }

    /// A copy of the log, oldest entry first.
    pub fn get_logs(&self) -> (lines: Vec<String>)
        ensures
            lines.deep_view() == self@,
    {
        let lines = self.lines.clone();
        assert(lines.deep_view() =~= self.lines.deep_view());
        lines
    }

    /// Empties the log. Always succeeds.
    pub fn clear_logs(&mut self) -> (done: bool)
        ensures
            done,
            final(self)@ == cleared(),
    {
        self.lines.clear();
        assert(self.lines.deep_view() =~= cleared());
        true
    }
}

} // verus!
