//! The typed events that a running job emits.

use vstd::prelude::*;
use vstd::string::StringExecFns;

verus! {

/// Which of the two output streams a piece of text came from.
#[derive(Clone, Copy, Debug, PartialEq, Eq, Structural)]
pub enum Stream {
    /// Standard output.
    Normal,
    /// Standard error.
    Error,
}

/// One progress or result notification of a job.
#[derive(Clone, Debug, PartialEq, Eq)]
pub enum Event {
    /// One complete line of standard output.
    NormalLine(String),
    /// A fragment of standard output that no newline has ended yet.
    NormalPartial(String),
    /// One complete line of standard error.
    ErrorLine(String),
    /// A fragment of standard error.
    ErrorPartial(String),
    /// The terminal event: `code` 0 is success, anything else failure.
    Exit { code: i32, message: Option<String> },
}

/// The mathematical value of an [`Event`].
pub enum EventView {
    NormalLine(Seq<char>),
    NormalPartial(Seq<char>),
    ErrorLine(Seq<char>),
    ErrorPartial(Seq<char>),
    Exit { code: int, message: Option<Seq<char>> },
}

/// The exit code that stands for "could not determine" and for forced
/// termination.
pub const UNKNOWN_EXIT_CODE: i32 = -1;

/// The cause reported when every producer went away without an exit event.
pub open spec fn worker_lost_text() -> Seq<char> {
    "worker terminated without reporting status"@
}

/// The view of an optional text.
pub open spec fn text_view(text: Option<String>) -> Option<Seq<char>> {
    match text {
        Some(t) => Some(t@),
        None => None,
    }
}

/// The view of the outcome of an in-process call.
pub open spec fn outcome_view(outcome: Result<(), String>) -> Result<(), Seq<char>> {
    match outcome {
        Ok(_) => Ok(()),
        Err(cause) => Err(cause@),
    }
}

impl EventView {
    /// Whether this is the event that ends a job's stream.
    pub open spec fn is_terminal(self) -> bool {
        self is Exit
    }

    /// Whether this is a terminal event that reports success.
    pub open spec fn is_success(self) -> bool {
        self matches EventView::Exit { code, message } && code == 0 && message is None
    }

    /// The event that carries `text` as a complete line of `stream`.
    pub open spec fn line(stream: Stream, text: Seq<char>) -> EventView {
        match stream {
            Stream::Normal => EventView::NormalLine(text),
            Stream::Error => EventView::ErrorLine(text),
        }
    }

    /// The event that carries `text` as an unfinished fragment of `stream`.
    pub open spec fn partial(stream: Stream, text: Seq<char>) -> EventView {
        match stream {
            Stream::Normal => EventView::NormalPartial(text),
            Stream::Error => EventView::ErrorPartial(text),
        }
    }

    /// The terminal event of an in-process call that ended with `outcome`.
    pub open spec fn of_outcome(outcome: Result<(), Seq<char>>) -> EventView {
        match outcome {
            Ok(_) => EventView::Exit { code: 0, message: None },
            Err(cause) => EventView::Exit { code: -1, message: Some(cause) },
        }
    }

    /// The terminal event of a process whose exit status was `status`.
    pub open spec fn of_exit_status(status: Option<i32>) -> EventView {
        match status {
            Some(code) => EventView::Exit { code: code as int, message: None },
            None => EventView::Exit { code: -1, message: None },
        }
    }

    /// The terminal event that stands in when the channel closed without one.
    pub open spec fn worker_lost() -> EventView {
        EventView::Exit { code: -1, message: Some(worker_lost_text()) }
    }
}

impl View for Event {
    type V = EventView;

    open spec fn view(&self) -> EventView {
        match *self {
            Event::NormalLine(text) => EventView::NormalLine(text@),
            Event::NormalPartial(text) => EventView::NormalPartial(text@),
            Event::ErrorLine(text) => EventView::ErrorLine(text@),
            Event::ErrorPartial(text) => EventView::ErrorPartial(text@),
            Event::Exit { code, message } => EventView::Exit {
                code: code as int,
                message: text_view(message),
            },
        }
    }
}

/// The views of a sequence of events, one for one.
pub open spec fn events_view(events: Seq<Event>) -> Seq<EventView> {
    events.map_values(|e: Event| e@)
}

impl Event {
    /// A complete line of `stream`.
    pub fn line(stream: Stream, text: String) -> (event: Event)
        ensures
            event@ == EventView::line(stream, text@),
    {
        match stream {
            Stream::Normal => Event::NormalLine(text),
            Stream::Error => Event::ErrorLine(text),
        }
    }

    /// An unfinished fragment of `stream`.
    pub fn partial(stream: Stream, text: String) -> (event: Event)
        ensures
            event@ == EventView::partial(stream, text@),
    {
        match stream {
            Stream::Normal => Event::NormalPartial(text),
            Stream::Error => Event::ErrorPartial(text),
        }
    }

    /// The terminal event of an in-process call: success is code 0 without a
    /// message, a failure is code -1 with its cause as the message.
    pub fn from_outcome(outcome: Result<(), String>) -> (event: Event)
        ensures
            event@ == EventView::of_outcome(outcome_view(outcome)),
            outcome is Ok ==> event@.is_success(),
            outcome matches Err(cause) ==> event@ == (EventView::Exit {
                code: -1,
                message: Some(cause@),
            }),
    {
        match outcome {
            Ok(_) => Event::Exit { code: 0, message: None },
            Err(cause) => Event::Exit { code: UNKNOWN_EXIT_CODE, message: Some(cause) },
        }
    }

    /// The terminal event of an external process: its exit code where the
    /// system reported one, -1 where it did not; never a message.
    pub fn from_exit_status(status: Option<i32>) -> (event: Event)
        ensures
            event@ == EventView::of_exit_status(status),
    {
        match status {
            Some(code) => Event::Exit { code, message: None },
            None => Event::Exit { code: UNKNOWN_EXIT_CODE, message: None },
        }
    }

    /// The terminal event that the relay makes up when every producer has gone
    /// without reporting a status.
    pub fn worker_lost() -> (event: Event)
        ensures
            event@ == EventView::worker_lost(),
    {
        Event::Exit {
            code: UNKNOWN_EXIT_CODE,
            message: Some(String::from_str("worker terminated without reporting status")),
        }
    }

    /// Whether this event ends the job's stream.
    pub fn is_terminal(&self) -> (terminal: bool)
        ensures
            terminal == self@.is_terminal(),
    {
        match self {
            Event::Exit { .. } => true,
            _ => false,
        }
    }

    /// The exit code, for the terminal event.
    pub fn exit_code(&self) -> (code: Option<i32>)
        ensures
            code == match *self {
                Event::Exit { code: c, .. } => Some(c),
                _ => None::<i32>,
            },
    {
        match self {
            Event::Exit { code, .. } => Some(*code),
            _ => None,
        }
    }
}

} // verus!
