//! The output relay: the consumer's side of the event channel.
//!
//! The relay polls the channel without blocking. A message is dispatched; the
//! terminal event, or a channel that closed without one, ends the drain. What
//! the relay decides is a pure function of its flag and of what the poll found,
//! so everything a consumer can observe is a function of the sequence of polls.

use vstd::prelude::*;
use crate::channel::{try_receive, Poll, PollView};
use crate::event::{events_view, Event, EventView};

verus! {

/// What the relay asks of its caller after one poll.
#[derive(Debug, PartialEq, Eq)]
pub enum RelayAction {
    /// Hand this event to the session.
    Dispatch(Event),
    /// Nothing was waiting: give the scheduler a turn, then poll again.
    Yield,
    /// The drain has ended: poll no more.
    Stop,
}

/// The mathematical value of a [`RelayAction`].
pub enum RelayActionView {
    Dispatch(EventView),
    Yield,
    Stop,
}

impl View for RelayAction {
    type V = RelayActionView;

    open spec fn view(&self) -> RelayActionView {
        match *self {
            RelayAction::Dispatch(event) => RelayActionView::Dispatch(event@),
            RelayAction::Yield => RelayActionView::Yield,
            RelayAction::Stop => RelayActionView::Stop,
        }
    }
}

/// One step of the relay: from the "still draining" flag and the outcome of a
/// poll to the next flag and the action.
pub open spec fn relay_step(draining: bool, poll: PollView) -> (bool, RelayActionView) {
    if !draining {
        (false, RelayActionView::Stop)
    } else {
        match poll {
            PollView::Message(event) => (!event.is_terminal(), RelayActionView::Dispatch(event)),
            PollView::Empty => (true, RelayActionView::Yield),
            PollView::Closed => (false, RelayActionView::Dispatch(EventView::worker_lost())),
        }
    }
}

/// The events that an action hands to the session: one or none.
pub open spec fn dispatched(action: RelayActionView) -> Seq<EventView> {
    match action {
        RelayActionView::Dispatch(event) => seq![event],
        _ => Seq::empty(),
    }
}

/// The flag and the events handed to the session after the relay, started with
/// `draining`, has seen `polls` one after the other.
pub open spec fn relay_run(draining: bool, polls: Seq<PollView>) -> (bool, Seq<EventView>)
    decreases polls.len(),
{
    if polls.len() == 0 {
        (draining, Seq::empty())
    } else {
        let (before, trace) = relay_run(draining, polls.drop_last());
        let (after, action) = relay_step(before, polls.last());
        (after, trace + dispatched(action))
    }
}

/// What a consumer observes of a fresh relay that sees `polls`.
pub open spec fn relay_trace(polls: Seq<PollView>) -> Seq<EventView> {
    relay_run(true, polls).1
}

/// Whether a fresh relay is still draining after `polls`.
pub open spec fn relay_draining(polls: Seq<PollView>) -> bool {
    relay_run(true, polls).0
}

/// Whether a poll ends the drain: the terminal event, or closure.
pub open spec fn ends_drain(poll: PollView) -> bool {
    match poll {
        PollView::Message(event) => event.is_terminal(),
        PollView::Empty => false,
        PollView::Closed => true,
    }
}

/// The event that the relay dispatches for a poll that ends the drain.
pub open spec fn last_event(poll: PollView) -> EventView {
    match poll {
        PollView::Message(event) => event,
        _ => EventView::worker_lost(),
    }
}

/// The messages among `polls`, in the order of arrival.
pub open spec fn delivered(polls: Seq<PollView>) -> Seq<EventView>
    decreases polls.len(),
{
    if polls.len() == 0 {
        Seq::empty()
    } else {
        match polls.last() {
            PollView::Message(event) => delivered(polls.drop_last()).push(event),
            _ => delivered(polls.drop_last()),
        }
    }
}

/// Whether at most the last event of `trace` is terminal.
pub open spec fn terminal_only_last(trace: Seq<EventView>) -> bool {
    forall|i: int| 0 <= i < trace.len() - 1 ==> !(#[trigger] trace[i]).is_terminal()
}

/// The shape of every run: a terminal event is dispatched at most once, as
/// the last one, and exactly when the drain ends.
pub proof fn lemma_run_shape(draining: bool, polls: Seq<PollView>)
    ensures
        terminal_only_last(relay_run(draining, polls).1),
        relay_run(draining, polls).1.len() <= polls.len(),
        relay_run(draining, polls).0 ==> draining && forall|i: int|
            0 <= i < relay_run(draining, polls).1.len() ==> !(#[trigger] relay_run(
                draining,
                polls,
            ).1[i]).is_terminal(),
        !draining ==> !relay_run(draining, polls).0 && relay_run(draining, polls).1.len() == 0,
        draining && !relay_run(draining, polls).0 ==> relay_run(draining, polls).1.len() > 0
            && relay_run(draining, polls).1.last().is_terminal(),
    decreases polls.len(),
{
    if polls.len() > 0 {
        lemma_run_shape(draining, polls.drop_last());
    }
}

/// A run over `first` followed by `second` is the run over `first`, then the
/// run over `second` from where the first one ended.
pub proof fn lemma_run_concat(draining: bool, first: Seq<PollView>, second: Seq<PollView>)
    ensures
        relay_run(draining, first + second).0 == relay_run(
            relay_run(draining, first).0,
            second,
        ).0,
        relay_run(draining, first + second).1 == relay_run(draining, first).1 + relay_run(
            relay_run(draining, first).0,
            second,
        ).1,
    decreases second.len(),
{
    let middle = relay_run(draining, first).0;
    if second.len() == 0 {
        assert(first + second =~= first);
        assert(relay_run(draining, first).1 + Seq::<EventView>::empty() =~= relay_run(
            draining,
            first,
        ).1);
    } else {
        lemma_run_concat(draining, first, second.drop_last());
        assert((first + second).drop_last() =~= first + second.drop_last());
        assert((first + second).last() == second.last());
        let step = relay_step(relay_run(middle, second.drop_last()).0, second.last());
        assert(relay_run(draining, first + second).1 =~= relay_run(draining, first).1
            + (relay_run(middle, second.drop_last()).1 + dispatched(step.1)));
    }
}

/// Exactly one terminal event, and it is the last: whatever a fresh relay is
/// polled with, no event that it dispatches before the last one is terminal;
/// the drain has ended exactly if some poll found the terminal event or the
/// channel closed; and where it has ended, the last event dispatched is
/// terminal.
pub proof fn law_single_terminal_last(polls: Seq<PollView>)
    ensures
        terminal_only_last(relay_trace(polls)),
        !relay_draining(polls) <==> exists|k: int|
            0 <= k < polls.len() && ends_drain(#[trigger] polls[k]),
        !relay_draining(polls) ==> relay_trace(polls).len() > 0 && relay_trace(
            polls,
        ).last().is_terminal(),
        relay_draining(polls) ==> forall|i: int|
            0 <= i < relay_trace(polls).len() ==> !(#[trigger] relay_trace(polls)[i]).is_terminal(),
    decreases polls.len(),
{
    lemma_run_shape(true, polls);
    if polls.len() > 0 {
        let front = polls.drop_last();
        law_single_terminal_last(front);
        if !relay_draining(front) {
            let k = choose|k: int| 0 <= k < front.len() && ends_drain(#[trigger] front[k]);
            assert(ends_drain(polls[k]));
        } else if ends_drain(polls.last()) {
            assert(ends_drain(polls[polls.len() - 1]));
        } else {
            assert forall|k: int| 0 <= k < polls.len() implies !ends_drain(
                #[trigger] polls[k],
            ) by {
                if k < front.len() {
                    assert(front[k] == polls[k]);
                }
            }
        }
    }
}

/// Nothing follows the terminal event: once the drain has ended, further
/// polls change neither the flag nor what the consumer has observed.
pub proof fn law_nothing_after_terminal(polls: Seq<PollView>, more: Seq<PollView>)
    requires
        !relay_draining(polls),
    ensures
        relay_trace(polls + more) == relay_trace(polls),
        !relay_draining(polls + more),
{
    lemma_run_concat(true, polls, more);
    lemma_run_shape(false, more);
    assert(relay_trace(polls) + relay_run(false, more).1 =~= relay_trace(polls));
}

/// Order of dispatch is order of arrival: while no poll has ended the drain,
/// the consumer has observed exactly the messages that arrived, in their
/// order, and the relay is still draining.
pub proof fn law_order_preserved(polls: Seq<PollView>)
    requires
        forall|k: int| 0 <= k < polls.len() ==> !ends_drain(#[trigger] polls[k]),
    ensures
        relay_trace(polls) == delivered(polls),
        relay_draining(polls),
    decreases polls.len(),
{
    if polls.len() > 0 {
        let front = polls.drop_last();
        assert forall|k: int| 0 <= k < front.len() implies !ends_drain(#[trigger] front[k]) by {
            assert(front[k] == polls[k]);
        }
        law_order_preserved(front);
        assert(!ends_drain(polls[polls.len() - 1]));
        match polls.last() {
            PollView::Message(event) => {
                assert(delivered(front) + seq![event] =~= delivered(front).push(event));
            },
            _ => {
                assert(delivered(front) + Seq::<EventView>::empty() =~= delivered(front));
            },
        }
    }
}

/// The whole of what a consumer observes: where `polls[k]` is the first poll
/// that ends the drain, the trace is the messages that arrived before it, in
/// their order, and then one terminal event: the exit event that arrived, or,
/// where the channel closed without one, the made-up failure with its nonzero
/// code.
pub proof fn law_trace_until_end(polls: Seq<PollView>, k: int)
    requires
        0 <= k < polls.len(),
        ends_drain(polls[k]),
        forall|j: int| 0 <= j < k ==> !ends_drain(#[trigger] polls[j]),
    ensures
        relay_trace(polls) == delivered(polls.take(k)).push(last_event(polls[k])),
        last_event(polls[k]).is_terminal(),
        polls[k] is Closed ==> relay_trace(polls).last() == EventView::worker_lost(),
        !relay_draining(polls),
    decreases polls.len(),
{
    let front = polls.drop_last();
    if k == polls.len() - 1 {
        assert(polls.take(k) =~= front);
        assert forall|j: int| 0 <= j < front.len() implies !ends_drain(#[trigger] front[j]) by {
            assert(front[j] == polls[j]);
        }
        law_order_preserved(front);
        assert(delivered(front) + seq![last_event(polls[k])] =~= delivered(front).push(
            last_event(polls[k]),
        ));
    } else {
        assert(front[k] == polls[k]);
        assert forall|j: int| 0 <= j < k implies !ends_drain(#[trigger] front[j]) by {
            assert(front[j] == polls[j]);
        }
        law_trace_until_end(front, k);
        assert(front.take(k) =~= polls.take(k));
        assert(relay_trace(front) + Seq::<EventView>::empty() =~= relay_trace(front));
    }
}

/// A channel that closes without an exit event still ends the job, and as a
/// failure: where `polls[k]` finds the channel closed and no earlier poll
/// ended the drain, the relay has stopped draining with that very poll, and
/// the last event that the consumer observes is the made-up exit, whose code
/// is -1, not 0, and whose message names the lost worker.
pub proof fn law_closure_ends_in_failure(polls: Seq<PollView>, k: int)
    requires
        0 <= k < polls.len(),
        polls[k] is Closed,
        forall|j: int| 0 <= j < k ==> !ends_drain(#[trigger] polls[j]),
    ensures
        !relay_draining(polls.take(k + 1)),
        !relay_draining(polls),
        relay_trace(polls) == relay_trace(polls.take(k + 1)),
        relay_trace(polls).len() > 0,
        relay_trace(polls).last() == (EventView::Exit {
            code: -1,
            message: Some(crate::event::worker_lost_text()),
        }),
{
    let front = polls.take(k + 1);
    assert(front[k] == polls[k]);
    assert forall|j: int| 0 <= j < k implies !ends_drain(#[trigger] front[j]) by {
        assert(front[j] == polls[j]);
    }
    law_trace_until_end(front, k);
    law_trace_until_end(polls, k);
    assert(front.take(k) =~= polls.take(k));
}

/// Messages are observed in the order found: a relay that finds the events
/// `events` one after the other, none of them terminal, dispatches exactly
/// these events in that order, and is still draining.
pub proof fn law_messages_in_order(events: Seq<EventView>)
    requires
        forall|i: int| 0 <= i < events.len() ==> !(#[trigger] events[i]).is_terminal(),
    ensures
        relay_trace(events.map_values(|e: EventView| PollView::Message(e))) == events,
        relay_draining(events.map_values(|e: EventView| PollView::Message(e))),
{
    law_order_preserved(events.map_values(|e: EventView| PollView::Message(e)));
    lemma_delivered_messages(events);
}

/// Lines written to one stream are observed in the order written: a relay that
/// finds the lines `texts` one after the other, as standard-output lines,
/// dispatches exactly these lines in that order.
pub proof fn law_lines_in_order(texts: Seq<Seq<char>>)
    ensures
        relay_trace(texts.map_values(|t: Seq<char>| PollView::Message(EventView::NormalLine(t))))
            == texts.map_values(|t: Seq<char>| EventView::NormalLine(t)),
{
    let lines = texts.map_values(|t: Seq<char>| EventView::NormalLine(t));
    let polls = texts.map_values(|t: Seq<char>| PollView::Message(EventView::NormalLine(t)));
    assert(polls =~= lines.map_values(|e: EventView| PollView::Message(e)));
    law_messages_in_order(lines);
}

/// The outcome of a job is what the consumer observes last: where a worker
/// sends the progress events `progress`, none of them terminal, and then the
/// terminal event of its outcome, a relay that finds them in this order
/// observes the progress in order and then that one terminal event. For a
/// success its code is 0 and its message absent; for a failure its code is not
/// 0 and its message is the cause.
pub proof fn law_outcome_observed_last(progress: Seq<EventView>, outcome: Result<(), Seq<char>>)
    requires
        forall|i: int| 0 <= i < progress.len() ==> !(#[trigger] progress[i]).is_terminal(),
    ensures
        relay_trace(
            progress.map_values(|e: EventView| PollView::Message(e)).push(
                PollView::Message(EventView::of_outcome(outcome)),
            ),
        ) == progress.push(EventView::of_outcome(outcome)),
        outcome is Ok ==> EventView::of_outcome(outcome) == (EventView::Exit {
            code: 0,
            message: None,
        }),
        outcome matches Err(cause) ==> EventView::of_outcome(outcome) == (EventView::Exit {
            code: -1,
            message: Some(cause),
        }),
{
    let sent = progress.map_values(|e: EventView| PollView::Message(e));
    let polls = sent.push(PollView::Message(EventView::of_outcome(outcome)));
    let k = progress.len() as int;
    assert(polls.take(k) =~= sent);
    law_trace_until_end(polls, k);
    law_messages_in_order(progress);
}

/// Of polls that all found a message, the messages delivered are these.
proof fn lemma_delivered_messages(events: Seq<EventView>)
    ensures
        delivered(events.map_values(|e: EventView| PollView::Message(e))) == events,
    decreases events.len(),
{
    let polls = events.map_values(|e: EventView| PollView::Message(e));
    if events.len() > 0 {
        lemma_delivered_messages(events.drop_last());
        assert(polls.drop_last() =~= events.drop_last().map_values(
            |e: EventView| PollView::Message(e),
        ));
        assert(events.drop_last().push(events.last()) =~= events);
    }
}

/// The consumer's state for one job in flight: the receiving end of the event
/// channel and the "still draining" flag.
pub struct Relay {
    receiver: std::sync::mpsc::Receiver<Event>,
    draining: bool,
}

impl Relay {
    /// Whether the drain is still going on.
    pub closed spec fn draining(&self) -> bool {
        self.draining
    }

    /// A relay that drains `receiver`.
    pub fn new(receiver: std::sync::mpsc::Receiver<Event>) -> (relay: Relay)
        ensures
            relay.draining(),
    {
        Relay { receiver, draining: true }
    }

    /// Whether the drain is still going on: true until the terminal event or
    /// closure has been seen.
    pub fn is_draining(&self) -> (draining: bool)
        ensures
            draining == self.draining(),
    {
        self.draining
    }

    /// Decides what follows from the outcome of one poll.
    pub fn step(&mut self, poll: Poll) -> (action: RelayAction)
        ensures
            final(self).draining() == relay_step(old(self).draining(), poll@).0,
            action@ == relay_step(old(self).draining(), poll@).1,
    {
        if !self.draining {
            return RelayAction::Stop;
        }
        match poll {
            Poll::Message(event) => {
                if event.is_terminal() {
                    self.draining = false;
                }
                RelayAction::Dispatch(event)
            },
            Poll::Empty => RelayAction::Yield,
            Poll::Closed => {
                self.draining = false;
                RelayAction::Dispatch(Event::worker_lost())
            },
        }
    }

    /// Polls the channel once, without blocking, and decides what follows.
    /// Once the drain has ended the channel is not touched any more. Whatever
    /// the channel holds, the outcome is a step of the relay on some poll.
    pub fn advance(&mut self) -> (action: RelayAction)
        ensures
            exists|poll: PollView|
                {
                    &&& final(self).draining() == (#[trigger] relay_step(
                        old(self).draining(),
                        poll,
                    )).0
                    &&& action@ == relay_step(old(self).draining(), poll).1
                },
            !old(self).draining() ==> action@ == RelayActionView::Stop,
    {
        if self.draining {
            let poll = try_receive(&self.receiver);
            self.step(poll)
        } else {
            let action = RelayAction::Stop;
            proof {
                let idle = relay_step(self.draining(), PollView::Empty);
                assert(idle.0 == self.draining() && idle.1 == action@);
            }
            action
        }
    }

    /// Drains what is waiting now: polls until the channel is empty, the drain
    /// ends, or `budget` polls were made, and returns the events to dispatch,
    /// in order. The result is the run of the relay over the polls made, so at
    /// most its last event is terminal, and it is terminal exactly if this
    /// call ended the drain.
    pub fn pump(&mut self, budget: usize) -> (events: Vec<Event>)
        ensures
            exists|polls: Seq<PollView>|
                {
                    &&& polls.len() <= budget
                    &&& final(self).draining() == (#[trigger] relay_run(
                        old(self).draining(),
                        polls,
                    )).0
                    &&& events_view(events@) == relay_run(old(self).draining(), polls).1
                },
            terminal_only_last(events_view(events@)),
            events@.len() <= budget,
            final(self).draining() ==> old(self).draining(),
            !old(self).draining() ==> events@.len() == 0,
            old(self).draining() && !final(self).draining() ==> events@.len() > 0
                && events@.last()@.is_terminal(),
    {
        let mut events: Vec<Event> = Vec::new();
        let mut made: usize = 0;
        let mut waiting = true;
        let ghost start = self.draining();
        let ghost mut polls: Seq<PollView> = Seq::empty();
        proof {
            assert(events_view(events@) =~= Seq::<EventView>::empty());
        }
        while waiting && self.draining && made < budget
            invariant
                made <= budget,
                polls.len() == made,
                self.draining() == relay_run(start, polls).0,
                events_view(events@) == relay_run(start, polls).1,
            decreases budget - made,
        {
            let ghost before = self.draining();
            let ghost seen = events_view(events@);
            let action = self.advance();
            proof {
                let poll = choose|poll: PollView|
                    {
                        &&& self.draining() == (#[trigger] relay_step(before, poll)).0
                        &&& action@ == relay_step(before, poll).1
                    };
                let longer = polls.push(poll);
                assert(longer.drop_last() =~= polls);
                assert(longer.last() == poll);
                polls = longer;
            }
            made = made + 1;
            match action {
                RelayAction::Dispatch(event) => {
                    events.push(event);
                    proof {
                        assert(events_view(events@) =~= seen + seq![event@]);
                    }
                },
                _ => {
                    waiting = false;
                    proof {
                        assert(seen + Seq::<EventView>::empty() =~= seen);
                    }
                },
            }
        }
        proof {
            lemma_run_shape(start, polls);
            let trace = events_view(events@);
            assert(trace.len() == events@.len());
            if events@.len() > 0 {
                assert(trace.last() == events@.last()@);
            }
        }
        events
    }
}

} // verus!
