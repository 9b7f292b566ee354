//! The producers' side of the event channel.
//!
//! A worker is handed a sink and pushes its events through it as they come
//! about. A send never blocks: the channel is unbounded. It is refused only
//! once the consumer has gone, and a worker that is told so may stop.

use vstd::prelude::*;
use vstd::string::StringExecFns;
use crate::channel::{another_sender, send_event};
use crate::event::{outcome_view, Event, EventView, Stream};
use crate::relay::Relay;

verus! {

/// One sending end of the event channel.
pub struct EventSink {
    sender: std::sync::mpsc::Sender<Event>,
}

/// Makes the event channel of one job: the sink for its workers and the relay
/// for its session, which is draining from the start.
pub fn event_channel() -> (ends: (EventSink, Relay))
    ensures
        ends.1.draining(),
{
    let (sender, receiver) = std::sync::mpsc::channel::<Event>();
    (EventSink { sender }, Relay::new(receiver))
}

impl EventSink {
    /// One more sink into the same channel, for another worker of the job.
    pub fn fork(&self) -> (sink: EventSink) {
        EventSink { sender: another_sender(&self.sender) }
    }

    /// Sends `event`, without blocking. The channel refuses it only once the
    /// consumer has gone, and then hands it back.
    pub fn emit(&self, event: Event) -> (refused: Result<(), Event>)
        ensures
            refused matches Err(back) ==> back == event,
    {
        send_event(&self.sender, event)
    }

    /// Sends `text` as a complete line of standard output. A refused event
    /// comes back.
    pub fn normal_line(&self, text: &str) -> (refused: Result<(), Event>)
        ensures
            refused matches Err(back) ==> back@ == EventView::NormalLine(text@),
    {
        self.emit(Event::line(Stream::Normal, String::from_str(text)))
    }

    /// Sends `text` as an unfinished fragment of standard output. A refused
    /// event comes back.
    pub fn normal_partial(&self, text: &str) -> (refused: Result<(), Event>)
        ensures
            refused matches Err(back) ==> back@ == EventView::NormalPartial(text@),
    {
        self.emit(Event::partial(Stream::Normal, String::from_str(text)))
    }

    /// Sends `text` as a complete line of standard error. A refused event
    /// comes back.
    pub fn error_line(&self, text: &str) -> (refused: Result<(), Event>)
        ensures
            refused matches Err(back) ==> back@ == EventView::ErrorLine(text@),
    {
        self.emit(Event::line(Stream::Error, String::from_str(text)))
    }

    /// Sends `text` as an unfinished fragment of standard error. A refused
    /// event comes back.
    pub fn error_partial(&self, text: &str) -> (refused: Result<(), Event>)
        ensures
            refused matches Err(back) ==> back@ == EventView::ErrorPartial(text@),
    {
        self.emit(Event::partial(Stream::Error, String::from_str(text)))
    }

    /// Whether the far end is a terminal that a person types into: never.
    pub fn is_interactive(&self) -> (interactive: bool)
        ensures
            !interactive,
    {
        false
    }

    /// Ends an in-process call: sends its terminal event, and gives up this
    /// sink, so that nothing can follow through it. A refused event comes
    /// back.
    pub fn finish(self, outcome: Result<(), String>) -> (refused: Result<(), Event>)
        ensures
            refused matches Err(back) ==> back@ == EventView::of_outcome(outcome_view(outcome)),
    {
        self.emit(Event::from_outcome(outcome))
    }

    /// Ends an external process: sends its terminal event, and gives up this
    /// sink, so that nothing can follow through it. A refused event comes
    /// back.
    pub fn exit(self, status: Option<i32>) -> (refused: Result<(), Event>)
        ensures
            refused matches Err(back) ==> back@ == EventView::of_exit_status(status),
    {
        self.emit(Event::from_exit_status(status))
    }
}

} // verus!
