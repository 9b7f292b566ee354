//! The channels that connect workers and consumer, and what is taken on trust
//! of them.
//!
//! Events travel over an unbounded `std::sync::mpsc` channel; stop signals
//! travel over `crossbeam_channel` channels of capacity one. What another
//! thread does with the far end is outside this library's reach, so nothing is
//! claimed of what a receive returns or of whether a send is delivered. What
//! is claimed of a stop channel is the capacity that it was made with.

use vstd::prelude::*;
use crate::event::Event;

verus! {

/// The sending end of `std::sync::mpsc`'s channel, carried as an opaque value.
#[verifier::external_type_specification]
#[verifier::external_body]
#[verifier::reject_recursive_types(T)]
pub struct ExMpscSender<T>(std::sync::mpsc::Sender<T>);

/// The receiving end of `std::sync::mpsc`'s channel, carried as an opaque value.
#[verifier::external_type_specification]
#[verifier::external_body]
#[verifier::reject_recursive_types(T)]
pub struct ExMpscReceiver<T>(std::sync::mpsc::Receiver<T>);

/// The sending end of a `crossbeam_channel` channel, carried as an opaque value.
#[verifier::external_type_specification]
#[verifier::external_body]
#[verifier::reject_recursive_types(T)]
pub struct ExSignalSender<T>(crossbeam_channel::Sender<T>);

/// The receiving end of a `crossbeam_channel` channel, carried as an opaque
/// value.
#[verifier::external_type_specification]
#[verifier::external_body]
#[verifier::reject_recursive_types(T)]
pub struct ExSignalReceiver<T>(crossbeam_channel::Receiver<T>);

/// `std::sync::mpsc::channel` makes a new unbounded channel and returns its
/// two ends. Nothing is claimed of them.
pub assume_specification<T>[ std::sync::mpsc::channel::<T> ]() -> (ends: (
    std::sync::mpsc::Sender<T>,
    std::sync::mpsc::Receiver<T>,
));

/// How many signals the channel behind a sending end can hold at once: what
/// `crossbeam_channel::Sender::capacity` returns for it. A channel keeps the
/// capacity that it was made with.
pub uninterp spec fn sender_capacity(sender: crossbeam_channel::Sender<()>) -> Option<usize>;

/// How many signals the channel behind a receiving end can hold at once: what
/// `crossbeam_channel::Receiver::capacity` returns for it.
pub uninterp spec fn receiver_capacity(receiver: crossbeam_channel::Receiver<()>) -> Option<usize>;

/// Calls `crossbeam_channel::bounded`, which makes a new channel that holds
/// at most `cap` messages and returns its two ends: both report `cap` as
/// their capacity. It panics where `cap` is too large for its bookkeeping, so
/// only small capacities are admitted.
#[verifier::external_body]
pub(crate) fn signal_channel(cap: usize) -> (ends: (
    crossbeam_channel::Sender<()>,
    crossbeam_channel::Receiver<()>,
))
    requires
        cap <= u16::MAX,
    ensures
        sender_capacity(ends.0) == Some(cap),
        receiver_capacity(ends.1) == Some(cap),
{
    crossbeam_channel::bounded::<()>(cap)
}

/// What one non-blocking receive on the event channel found.
#[derive(Debug, PartialEq, Eq)]
pub enum Poll {
    /// A message was waiting.
    Message(Event),
    /// Nothing is waiting, but a producer is still there.
    Empty,
    /// Nothing is waiting and every producer has gone.
    Closed,
}

/// The mathematical value of a [`Poll`].
pub enum PollView {
    Message(crate::event::EventView),
    Empty,
    Closed,
}

impl View for Poll {
    type V = PollView;

    open spec fn view(&self) -> PollView {
        match *self {
            Poll::Message(event) => PollView::Message(event@),
            Poll::Empty => PollView::Empty,
            Poll::Closed => PollView::Closed,
        }
    }
}

/// Calls `std::sync::mpsc::Receiver::try_recv`, which never blocks, and hands
/// back its three outcomes as a [`Poll`]. Which of them comes depends on the
/// producers, so nothing is claimed of the result.
#[verifier::external_body]
pub(crate) fn try_receive(receiver: &std::sync::mpsc::Receiver<Event>) -> (poll: Poll) {
    match receiver.try_recv() {
        Ok(event) => Poll::Message(event),
        Err(std::sync::mpsc::TryRecvError::Empty) => Poll::Empty,
        Err(std::sync::mpsc::TryRecvError::Disconnected) => Poll::Closed,
    }
}

/// Calls `std::sync::mpsc::Sender::send`, which never blocks on an unbounded
/// channel. The message is refused once the receiver has gone, and then it
/// comes back as it was sent. Whether it is refused is not claimed.
#[verifier::external_body]
pub(crate) fn send_event(sender: &std::sync::mpsc::Sender<Event>, event: Event) -> (refused:
    Result<(), Event>)
    ensures
        refused matches Err(back) ==> back == event,
{
    match sender.send(event) {
        Ok(()) => Ok(()),
        Err(std::sync::mpsc::SendError(back)) => Err(back),
    }
}

/// Calls `clone` on a `std::sync::mpsc::Sender`, which makes one more sending
/// end of the same channel. Nothing is claimed of it.
#[verifier::external_body]
pub(crate) fn another_sender(sender: &std::sync::mpsc::Sender<Event>) -> (copy:
    std::sync::mpsc::Sender<Event>) {
    sender.clone()
}

/// Calls `crossbeam_channel::Sender::try_send` with the unit message, which
/// returns at once, and says whether the signal was accepted. It is refused
/// when the channel is full or the receiver has gone, so nothing is claimed of
/// the result.
#[verifier::external_body]
pub(crate) fn send_signal(sender: &crossbeam_channel::Sender<()>) -> (accepted: bool) {
    sender.try_send(()).is_ok()
}

/// Calls `crossbeam_channel::Receiver::try_recv`, which returns at once, and
/// says whether a signal was waiting. Nothing is claimed of the result.
#[verifier::external_body]
pub(crate) fn signal_pending(receiver: &crossbeam_channel::Receiver<()>) -> (pending: bool) {
    receiver.try_recv().is_ok()
}

} // verus!
