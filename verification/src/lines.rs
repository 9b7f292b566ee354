//! Cutting a stream of text into lines.
//!
//! A reader hands over text as it becomes available, in chunks of any size.
//! The splitter emits one line event for each newline, keeps what follows the
//! last newline as the pending fragment, and offers that fragment as a partial
//! event. A carriage return directly before the newline belongs to the line
//! ending, not to the line.

use vstd::prelude::*;
use crate::event::{events_view, Event, EventView, Stream};

verus! {

/// A line without the carriage return that stood before its newline, if one
/// did.
pub open spec fn strip_cr(line: Seq<char>) -> Seq<char> {
    if line.len() > 0 && line.last() == '\r' {
        line.drop_last()
    } else {
        line
    }
}

/// The complete lines of `text` read after the pending fragment `rest`, and
/// the fragment that is pending after it.
pub open spec fn split_from(rest: Seq<char>, text: Seq<char>) -> (Seq<Seq<char>>, Seq<char>)
    decreases text.len(),
{
    if text.len() == 0 {
        (Seq::empty(), rest)
    } else {
        let (lines, open) = split_from(rest, text.drop_last());
        if text.last() == '\n' {
            (lines.push(strip_cr(open)), Seq::empty())
        } else {
            (lines, open.push(text.last()))
        }
    }
}

/// The line events of `stream` for `lines`, one for one.
pub open spec fn line_events(stream: Stream, lines: Seq<Seq<char>>) -> Seq<EventView> {
    lines.map_values(|line: Seq<char>| EventView::line(stream, line))
}

/// The lines, each followed by a newline, written one after the other.
pub open spec fn join_lines(lines: Seq<Seq<char>>) -> Seq<char>
    decreases lines.len(),
{
    if lines.len() == 0 {
        Seq::empty()
    } else {
        join_lines(lines.drop_last()) + lines.last().push('\n')
    }
}

/// A text that could be written as one line: it holds no newline and does not
/// end in a carriage return.
pub open spec fn is_plain_line(line: Seq<char>) -> bool {
    &&& forall|i: int| 0 <= i < line.len() ==> line[i] != '\n'
    &&& strip_cr(line) == line
}

/// Splitting `first` and then `second` is splitting the two as one text.
pub proof fn lemma_split_concat(rest: Seq<char>, first: Seq<char>, second: Seq<char>)
    ensures
        split_from(rest, first + second).0 == split_from(rest, first).0 + split_from(
            split_from(rest, first).1,
            second,
        ).0,
        split_from(rest, first + second).1 == split_from(split_from(rest, first).1, second).1,
    decreases second.len(),
{
    let middle = split_from(rest, first).1;
    if second.len() == 0 {
        assert(first + second =~= first);
        assert(split_from(rest, first).0 + Seq::<Seq<char>>::empty() =~= split_from(
            rest,
            first,
        ).0);
    } else {
        lemma_split_concat(rest, first, second.drop_last());
        assert((first + second).drop_last() =~= first + second.drop_last());
        assert((first + second).last() == second.last());
        let inner = split_from(middle, second.drop_last());
        if second.last() == '\n' {
            assert(split_from(rest, first + second).0 =~= split_from(rest, first).0
                + inner.0.push(strip_cr(inner.1)));
        }
    }
}

/// A text without a newline completes no line: it is added to the pending
/// fragment.
pub proof fn lemma_split_no_newline(rest: Seq<char>, text: Seq<char>)
    requires
        forall|i: int| 0 <= i < text.len() ==> text[i] != '\n',
    ensures
        split_from(rest, text) == (Seq::<Seq<char>>::empty(), rest + text),
    decreases text.len(),
{
    if text.len() == 0 {
        assert(rest + text =~= rest);
    } else {
        lemma_split_no_newline(rest, text.drop_last());
        assert((rest + text.drop_last()).push(text.last()) =~= rest + text);
    }
}

/// Lines come out as they went in: a stream to which plain lines were written
/// one after the other, each with its newline, splits into exactly these
/// lines, in that order, with nothing pending.
pub proof fn law_split_joined_lines(lines: Seq<Seq<char>>)
    requires
        forall|i: int| 0 <= i < lines.len() ==> is_plain_line(#[trigger] lines[i]),
    ensures
        split_from(Seq::empty(), join_lines(lines)) == (lines, Seq::<char>::empty()),
    decreases lines.len(),
{
    if lines.len() > 0 {
        let front = lines.drop_last();
        let line = lines.last();
        assert forall|i: int| 0 <= i < front.len() implies is_plain_line(#[trigger] front[i]) by {
            assert(front[i] == lines[i]);
        }
        law_split_joined_lines(front);
        assert(is_plain_line(lines[lines.len() - 1]));
        lemma_split_concat(Seq::empty(), join_lines(front), line.push('\n'));
        lemma_split_no_newline(Seq::empty(), line);
        assert(line.push('\n').drop_last() =~= line);
        assert(Seq::<char>::empty() + line =~= line);
        assert(front + Seq::<Seq<char>>::empty().push(line) =~= lines);
    }
}

/// `String::push` appends one character to the end of the string.
pub assume_specification[ String::push ](text: &mut String, c: char)
    ensures
        final(text)@ == old(text)@.push(c),
;

/// `String::pop` removes the last character of the string and returns it, or
/// returns `None` and leaves the string as it is where it is empty.
pub assume_specification[ String::pop ](text: &mut String) -> (last: Option<char>)
    ensures
        old(text)@.len() == 0 ==> last is None && final(text)@ == old(text)@,
        old(text)@.len() > 0 ==> last == Some(old(text)@.last()) && final(text)@ == old(
            text,
        )@.drop_last(),
;

/// The reader's state for one stream: which stream it is, and the text read
/// since the last newline.
pub struct LineSplitter {
    stream: Stream,
    pending: String,
}

/// Removes the carriage return at the end of `line`, if there is one.
fn without_cr(line: String) -> (stripped: String)
    ensures
        stripped@ == strip_cr(line@),
{
    let mut stripped = line;
    match stripped.pop() {
        Some(c) => {
            if c != '\r' {
                stripped.push(c);
                proof {
                    assert(line@.drop_last().push(c) =~= line@);
                }
            }
        },
        None => {},
    }
    stripped
}

impl LineSplitter {
    /// The stream whose text this splitter cuts.
    pub closed spec fn stream(&self) -> Stream {
        self.stream
    }

    /// The text read since the last newline.
    pub closed spec fn pending(&self) -> Seq<char> {
        self.pending@
    }

    /// A splitter for `stream` with nothing pending.
    pub fn new(stream: Stream) -> (splitter: LineSplitter)
        ensures
            splitter.stream() == stream,
            splitter.pending() == Seq::<char>::empty(),
    {
        LineSplitter { stream, pending: String::new() }
    }

    /// Takes the next chunk of text. Returns one line event for each newline
    /// in it, in order; the first of them begins with what was pending. What
    /// follows the last newline is pending afterwards.
    pub fn feed(&mut self, chunk: &str) -> (events: Vec<Event>)
        ensures
            final(self).stream() == old(self).stream(),
            events_view(events@) == line_events(
                old(self).stream(),
                split_from(old(self).pending(), chunk@).0,
            ),
            final(self).pending() == split_from(old(self).pending(), chunk@).1,
    {
        let mut events: Vec<Event> = Vec::new();
        let ghost rest = self.pending@;
        proof {
            assert(chunk@.take(0) =~= Seq::<char>::empty());
            assert(events_view(events@) =~= line_events(self.stream, Seq::empty()));
        }
        for c in chars: chunk.chars()
            invariant
                chars.seq() == chunk@,
                self.stream == old(self).stream,
                events_view(events@) == line_events(
                    self.stream,
                    split_from(rest, chunk@.take(chars.index() as int)).0,
                ),
                self.pending@ == split_from(rest, chunk@.take(chars.index() as int)).1,
        {
            let ghost i = chars.index() as int;
            let ghost before = split_from(rest, chunk@.take(i));
            let ghost seen = events_view(events@);
            proof {
                assert(chunk@.take(i + 1).drop_last() =~= chunk@.take(i));
                assert(chunk@.take(i + 1).last() == c);
            }
            if c == '\n' {
                let mut line = String::new();
                core::mem::swap(&mut self.pending, &mut line);
                let line = without_cr(line);
                events.push(Event::line(self.stream, line));
                proof {
                    assert(events_view(events@) =~= seen.push(
                        EventView::line(self.stream, strip_cr(before.1)),
                    ));
                    assert(line_events(self.stream, before.0.push(strip_cr(before.1)))
                        =~= seen.push(EventView::line(self.stream, strip_cr(before.1))));
                }
            } else {
                self.pending.push(c);
            }
        }
        proof {
            assert(chunk@.take(chunk@.len() as int) =~= chunk@);
        }
        events
    }

    /// The pending fragment as a partial event, where one is pending. The
    /// fragment stays pending: the line that it begins is still emitted whole.
    pub fn partial(&self) -> (event: Option<Event>)
        ensures
            self.pending().len() == 0 ==> event is None,
            self.pending().len() > 0 ==> event is Some && event.unwrap()@ == EventView::partial(
                self.stream(),
                self.pending(),
            ),
    {
        if self.pending.as_str().is_empty() {
            None
        } else {
            Some(Event::partial(self.stream, self.pending.clone()))
        }
    }

    /// Ends the stream: what is pending, if anything, is its last line, as it
    /// stands. Nothing is pending afterwards.
    pub fn finish(&mut self) -> (event: Option<Event>)
        ensures
            final(self).stream() == old(self).stream(),
            final(self).pending() == Seq::<char>::empty(),
            old(self).pending().len() == 0 ==> event is None,
            old(self).pending().len() > 0 ==> event is Some && event.unwrap()@ == EventView::line(
                old(self).stream(),
                old(self).pending(),
            ),
    {
        let mut last = String::new();
        core::mem::swap(&mut self.pending, &mut last);
        if last.as_str().is_empty() {
            None
        } else {
            Some(Event::line(self.stream, last))
        }
    }
}

} // verus!
