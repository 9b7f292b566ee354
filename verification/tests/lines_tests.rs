use exec_bridge::event::{Event, Stream};
use exec_bridge::lines::LineSplitter;

#[test]
fn one_line_with_its_newline() {
    let mut splitter = LineSplitter::new(Stream::Normal);
    assert_eq!(splitter.feed("hello\n"), vec![Event::NormalLine("hello".to_string())]);
    assert_eq!(splitter.partial(), None);
    assert_eq!(splitter.finish(), None);
}

#[test]
fn error_stream_gives_error_lines() {
    let mut splitter = LineSplitter::new(Stream::Error);
    assert_eq!(splitter.feed("boom\n"), vec![Event::ErrorLine("boom".to_string())]);
}

#[test]
fn three_lines_in_one_chunk_keep_their_order() {
    let mut splitter = LineSplitter::new(Stream::Normal);
    assert_eq!(
        splitter.feed("L1\nL2\nL3\n"),
        vec![
            Event::NormalLine("L1".to_string()),
            Event::NormalLine("L2".to_string()),
            Event::NormalLine("L3".to_string()),
        ]
    );
}

#[test]
fn a_line_may_span_chunks() {
    let mut splitter = LineSplitter::new(Stream::Normal);
    assert_eq!(splitter.feed("hel"), Vec::<Event>::new());
    assert_eq!(splitter.partial(), Some(Event::NormalPartial("hel".to_string())));
    assert_eq!(splitter.feed("lo\nwor"), vec![Event::NormalLine("hello".to_string())]);
    assert_eq!(splitter.partial(), Some(Event::NormalPartial("wor".to_string())));
    assert_eq!(splitter.feed("ld\n"), vec![Event::NormalLine("world".to_string())]);
    assert_eq!(splitter.partial(), None);
}

#[test]
fn carriage_return_before_newline_is_dropped() {
    let mut splitter = LineSplitter::new(Stream::Normal);
    assert_eq!(
        splitter.feed("a\r\nb\r"),
        vec![Event::NormalLine("a".to_string())]
    );
    assert_eq!(splitter.feed("\nc\rd\n"), vec![
        Event::NormalLine("b".to_string()),
        Event::NormalLine("c\rd".to_string()),
    ]);
}

#[test]
fn only_one_carriage_return_is_dropped() {
    let mut splitter = LineSplitter::new(Stream::Normal);
    assert_eq!(splitter.feed("a\r\r\n"), vec![Event::NormalLine("a\r".to_string())]);
}

#[test]
fn empty_lines_are_lines() {
    let mut splitter = LineSplitter::new(Stream::Error);
    assert_eq!(
        splitter.feed("\n\nx\n"),
        vec![
            Event::ErrorLine(String::new()),
            Event::ErrorLine(String::new()),
            Event::ErrorLine("x".to_string()),
        ]
    );
}

#[test]
fn empty_chunk_changes_nothing() {
    let mut splitter = LineSplitter::new(Stream::Normal);
    splitter.feed("ab");
    assert_eq!(splitter.feed(""), Vec::<Event>::new());
    assert_eq!(splitter.partial(), Some(Event::NormalPartial("ab".to_string())));
}

#[test]
fn finish_gives_the_unended_line_as_it_stands() {
    let mut splitter = LineSplitter::new(Stream::Normal);
    splitter.feed("done\nlast\r");
    assert_eq!(splitter.finish(), Some(Event::NormalLine("last\r".to_string())));
    assert_eq!(splitter.finish(), None);
    assert_eq!(splitter.partial(), None);
}

#[test]
fn text_beyond_ascii_is_cut_by_characters() {
    let mut splitter = LineSplitter::new(Stream::Normal);
    assert_eq!(
        splitter.feed("héllo wörld\n日本語\nрус"),
        vec![
            Event::NormalLine("héllo wörld".to_string()),
            Event::NormalLine("日本語".to_string()),
        ]
    );
    assert_eq!(splitter.partial(), Some(Event::NormalPartial("рус".to_string())));
}
