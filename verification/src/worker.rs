//! The workers of an external process: one reader for each output stream and
//! one watcher that waits for the process to end.
//!
//! The program around the library owns the process and does the reading and
//! the waiting. What to do with what was read, and with what the system says
//! of the process, is decided here.

use vstd::prelude::*;
use crate::channel::{receiver_capacity, sender_capacity, signal_channel, signal_pending, PollView};
use crate::event::{events_view, Event, EventView, Stream};
use crate::lines::{
    is_plain_line, join_lines, law_split_joined_lines, line_events, split_from, LineSplitter,
};
use crate::relay::{law_messages_in_order, relay_trace};
use crate::sink::EventSink;

verus! {

/// How many stop signals a cancellation sends: one for each worker.
pub const WORKERS_PER_PROCESS: usize = 3;

/// How many signals a stop channel holds: a worker is told to stop once.
pub const SIGNAL_CAPACITY: usize = 1;

/// The sending ends of the stop signals, one for each worker of a process.
pub struct ShutdownSenders {
    pub stdout: crossbeam_channel::Sender<()>,
    pub stderr: crossbeam_channel::Sender<()>,
    pub wait: crossbeam_channel::Sender<()>,
}

/// The receiving ends of the stop signals, one for each worker of a process.
pub struct ShutdownReceivers {
    pub stdout: crossbeam_channel::Receiver<()>,
    pub stderr: crossbeam_channel::Receiver<()>,
    pub wait: crossbeam_channel::Receiver<()>,
}

impl ShutdownSenders {
    /// Whether each of the three channels holds `cap` signals at most.
    pub open spec fn each_holds(&self, cap: usize) -> bool {
        &&& sender_capacity(self.stdout) == Some(cap)
        &&& sender_capacity(self.stderr) == Some(cap)
        &&& sender_capacity(self.wait) == Some(cap)
    }
}

impl ShutdownReceivers {
    /// Whether each of the three channels holds `cap` signals at most.
    pub open spec fn each_holds(&self, cap: usize) -> bool {
        &&& receiver_capacity(self.stdout) == Some(cap)
        &&& receiver_capacity(self.stderr) == Some(cap)
        &&& receiver_capacity(self.wait) == Some(cap)
    }
}

/// Makes the stop signals of one process: three channels, one for each
/// worker, that hold one signal each.
pub fn shutdown_channels() -> (ends: (ShutdownSenders, ShutdownReceivers))
    ensures
        ends.0.each_holds(SIGNAL_CAPACITY),
        ends.1.each_holds(SIGNAL_CAPACITY),
{
    let (stdout_tx, stdout_rx) = signal_channel(SIGNAL_CAPACITY);
    let (stderr_tx, stderr_rx) = signal_channel(SIGNAL_CAPACITY);
    let (wait_tx, wait_rx) = signal_channel(SIGNAL_CAPACITY);
    (
        ShutdownSenders { stdout: stdout_tx, stderr: stderr_tx, wait: wait_tx },
        ShutdownReceivers { stdout: stdout_rx, stderr: stderr_rx, wait: wait_rx },
    )
}

/// The worker that reads one output stream: it cuts what it reads into lines
/// and sends them, until it is told to stop. Once told, it stays stopped.
pub struct StreamReader {
    splitter: LineSplitter,
    stop: crossbeam_channel::Receiver<()>,
    sink: EventSink,
    stopped: bool,
}

impl StreamReader {
    /// The stream that this worker reads.
    pub closed spec fn stream(&self) -> Stream {
        self.splitter.stream()
    }

    /// The text read since the last newline.
    pub closed spec fn pending(&self) -> Seq<char> {
        self.splitter.pending()
    }

    /// Whether this worker was told to stop.
    pub closed spec fn stopped(&self) -> bool {
        self.stopped
    }

    /// A reader of `stream` that listens to `stop` and sends into `sink`.
    pub fn new(stream: Stream, stop: crossbeam_channel::Receiver<()>, sink: EventSink) -> (reader:
        StreamReader)
        ensures
            reader.stream() == stream,
            reader.pending() == Seq::<char>::empty(),
            !reader.stopped(),
    {
        StreamReader { splitter: LineSplitter::new(stream), stop, sink, stopped: false }
    }

    /// Whether this worker was told to stop.
    pub fn is_stopped(&self) -> (stopped: bool)
        ensures
            stopped == self.stopped(),
    {
        self.stopped
    }

    /// Decides what one read gives. A reader that is stopped, or is told to
    /// stop now, drops the text and changes nothing else. Otherwise the answer
    /// is the lines that the text completes, in order, and what follows the
    /// last newline is pending.
    pub fn take(&mut self, stop_requested: bool, text: &str) -> (lines: Option<Vec<Event>>)
        ensures
            final(self).stream() == old(self).stream(),
            final(self).stopped() == (old(self).stopped() || stop_requested),
            final(self).stopped() ==> lines is None && final(self).pending() == old(
                self,
            ).pending(),
            !final(self).stopped() ==> lines is Some && events_view(lines.unwrap()@)
                == line_events(old(self).stream(), split_from(old(self).pending(), text@).0)
                && final(self).pending() == split_from(old(self).pending(), text@).1,
    {
        if stop_requested {
            self.stopped = true;
        }
        if self.stopped {
            None
        } else {
            Some(self.splitter.feed(text))
        }
    }

    /// Takes the text of one read: looks for a stop signal, decides as
    /// [`StreamReader::take`] does, and sends the lines. The answer is whether
    /// to read on: `false` once the reader is stopped.
    pub fn on_text(&mut self, text: &str) -> (keep_reading: bool)
        ensures
            final(self).stream() == old(self).stream(),
            keep_reading == !final(self).stopped(),
            old(self).stopped() ==> final(self).stopped(),
            keep_reading ==> final(self).pending() == split_from(old(self).pending(), text@).1,
            !keep_reading ==> final(self).pending() == old(self).pending(),
    {
        let stop_requested = !self.stopped && signal_pending(&self.stop);
        match self.take(stop_requested, text) {
            Some(lines) => {
                for event in lines {
                    let _ = self.sink.emit(event);
                }
                true
            },
            None => false,
        }
    }

    /// Ends the stream: what is pending, if anything, is sent as its last
    /// line. A stopped reader sends nothing and keeps what it has.
    pub fn on_end(&mut self)
        ensures
            final(self).stream() == old(self).stream(),
            final(self).stopped() == old(self).stopped(),
            final(self).pending() == if old(self).stopped() {
                old(self).pending()
            } else {
                Seq::<char>::empty()
            },
    {
        if !self.stopped {
            if let Some(event) = self.splitter.finish() {
                let _ = self.sink.emit(event);
            }
        }
    }
}

/// What the system says of the process when asked without waiting.
#[derive(Clone, Copy, Debug, PartialEq, Eq, Structural)]
pub enum WaitStatus {
    /// It has not ended yet.
    StillRunning,
    /// It has ended, with this exit code where the system has one.
    Exited(Option<i32>),
    /// The system could not say.
    Unknown,
}

/// What the watcher is to do next.
#[derive(Clone, Copy, Debug, PartialEq, Eq, Structural)]
pub enum WatchAction {
    /// Ask again after a pause.
    Wait,
    /// Kill the process and reap it, then report an exit without a status.
    KillAndReap,
    /// Report the exit with this status.
    Report(Option<i32>),
}

/// The watcher's decision. A stop signal goes first: the process is killed
/// and reaped. Otherwise an ended process is reported with its status, an
/// unknown one without, and a running one is waited for.
pub open spec fn watch_decision(stop_requested: bool, status: WaitStatus) -> WatchAction {
    if stop_requested {
        WatchAction::KillAndReap
    } else {
        match status {
            WaitStatus::StillRunning => WatchAction::Wait,
            WaitStatus::Exited(code) => WatchAction::Report(code),
            WaitStatus::Unknown => WatchAction::Report(None),
        }
    }
}

/// Decides what the watcher does next.
pub fn watch_step(stop_requested: bool, status: WaitStatus) -> (action: WatchAction)
    ensures
        action == watch_decision(stop_requested, status),
{
    if stop_requested {
        WatchAction::KillAndReap
    } else {
        match status {
            WaitStatus::StillRunning => WatchAction::Wait,
            WaitStatus::Exited(code) => WatchAction::Report(code),
            WaitStatus::Unknown => WatchAction::Report(None),
        }
    }
}

/// The worker that waits for the process to end and reports its exit: the one
/// producer of the terminal event.
pub struct ExitWatcher {
    stop: crossbeam_channel::Receiver<()>,
    sink: EventSink,
}

impl ExitWatcher {
    /// The end on which this worker listens for its stop signal.
    pub closed spec fn stop_end(&self) -> crossbeam_channel::Receiver<()> {
        self.stop
    }

    /// The sink into which this worker reports.
    pub closed spec fn sink(&self) -> EventSink {
        self.sink
    }

    /// A watcher that listens to `stop` and reports into `sink`.
    pub fn new(stop: crossbeam_channel::Receiver<()>, sink: EventSink) -> (watcher: ExitWatcher)
        ensures
            watcher.stop_end() == stop,
            watcher.sink() == sink,
    {
        ExitWatcher { stop, sink }
    }

    /// Looks for a stop signal and decides what to do with `status`. Whether a
    /// signal is waiting is for the session to say, so the answer is the
    /// decision for one of the two cases.
    pub fn poll(&self, status: WaitStatus) -> (action: WatchAction)
        ensures
            action == watch_decision(true, status) || action == watch_decision(false, status),
    {
        watch_step(signal_pending(&self.stop), status)
    }

    /// Reports the exit and ends the watcher: `status` is the exit code where
    /// the system gave one, and nothing after a kill. A refused event comes
    /// back.
    pub fn report(self, status: Option<i32>) -> (refused: Result<(), Event>)
        ensures
            refused matches Err(back) ==> back@ == EventView::of_exit_status(status),
    {
        self.sink.exit(status)
    }
}

/// Order within one stream, from the writer to the consumer: where plain
/// lines are written to a stream one after the other, each with its newline,
/// and a relay finds the line events that the reader cuts from that text, in
/// the reader's order, the consumer observes one line event for each line
/// written, in the order written.
pub proof fn law_stream_order(stream: Stream, lines: Seq<Seq<char>>)
    requires
        forall|i: int| 0 <= i < lines.len() ==> is_plain_line(#[trigger] lines[i]),
    ensures
        relay_trace(
            line_events(stream, split_from(Seq::empty(), join_lines(lines)).0).map_values(
                |e: EventView| PollView::Message(e),
            ),
        ) == line_events(stream, lines),
        line_events(stream, lines).len() == lines.len(),
        forall|i: int|
            0 <= i < lines.len() ==> (#[trigger] line_events(stream, lines)[i]) == EventView::line(
                stream,
                lines[i],
            ),
{
    law_split_joined_lines(lines);
    let events = line_events(stream, lines);
    assert forall|i: int| 0 <= i < events.len() implies !(#[trigger] events[i]).is_terminal() by {
        assert(events[i] == EventView::line(stream, lines[i]));
    }
    law_messages_in_order(events);
}

} // verus!
