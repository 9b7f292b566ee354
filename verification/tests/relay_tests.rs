use exec_bridge::channel::Poll;
use exec_bridge::event::{Event, Stream, UNKNOWN_EXIT_CODE};
use exec_bridge::relay::{Relay, RelayAction};
use exec_bridge::sink::event_channel;

fn line(text: &str) -> Event {
    Event::NormalLine(text.to_string())
}

fn exit(code: i32, message: Option<&str>) -> Event {
    Event::Exit { code, message: message.map(|m| m.to_string()) }
}

#[test]
fn in_process_job_reports_progress_then_success() {
    let (sink, mut relay) = event_channel();
    assert!(sink.normal_line("resolving").is_ok());
    assert!(sink.normal_line("installing").is_ok());
    assert!(sink.finish(Ok(())).is_ok());
    let events = relay.pump(16);
    assert_eq!(events, vec![line("resolving"), line("installing"), exit(0, None)]);
    assert!(!relay.is_draining());
}

#[test]
fn successful_job_ends_with_code_zero_and_no_message() {
    assert_eq!(Event::from_outcome(Ok(())), exit(0, None));
    assert_eq!(Event::from_exit_status(Some(0)), exit(0, None));
}

#[test]
fn failed_job_ends_with_its_cause() {
    let (sink, mut relay) = event_channel();
    sink.finish(Err("package not found".to_string())).unwrap();
    let events = relay.pump(4);
    assert_eq!(events, vec![exit(-1, Some("package not found"))]);
    assert_eq!(events[0].exit_code(), Some(-1));
    assert!(!relay.is_draining());
}

#[test]
fn cause_with_colons_is_kept_whole() {
    let event = Event::from_outcome(Err("error: a:b:c".to_string()));
    assert_eq!(event, exit(-1, Some("error: a:b:c")));
}

#[test]
fn exit_status_maps_to_exit_event() {
    assert_eq!(Event::from_exit_status(Some(2)), exit(2, None));
    assert_eq!(Event::from_exit_status(Some(-7)), exit(-7, None));
    assert_eq!(Event::from_exit_status(None), exit(-1, None));
    assert_eq!(UNKNOWN_EXIT_CODE, -1);
}

#[test]
fn lines_of_one_stream_arrive_in_order() {
    let (sink, mut relay) = event_channel();
    sink.normal_line("L1").unwrap();
    sink.normal_line("L2").unwrap();
    sink.normal_line("L3").unwrap();
    let events = relay.pump(16);
    assert_eq!(events, vec![line("L1"), line("L2"), line("L3")]);
    assert!(relay.is_draining());
}

#[test]
fn each_kind_of_text_keeps_its_variant() {
    let (sink, mut relay) = event_channel();
    sink.normal_line("a").unwrap();
    sink.normal_partial("b").unwrap();
    sink.error_line("c").unwrap();
    sink.error_partial("d").unwrap();
    assert!(!sink.is_interactive());
    let events = relay.pump(16);
    assert_eq!(
        events,
        vec![
            Event::NormalLine("a".to_string()),
            Event::NormalPartial("b".to_string()),
            Event::ErrorLine("c".to_string()),
            Event::ErrorPartial("d".to_string()),
        ]
    );
}

#[test]
fn line_and_partial_pick_the_variant_by_stream() {
    assert_eq!(Event::line(Stream::Normal, "x".to_string()), Event::NormalLine("x".to_string()));
    assert_eq!(Event::line(Stream::Error, "x".to_string()), Event::ErrorLine("x".to_string()));
    assert_eq!(
        Event::partial(Stream::Normal, "x".to_string()),
        Event::NormalPartial("x".to_string())
    );
    assert_eq!(
        Event::partial(Stream::Error, "x".to_string()),
        Event::ErrorPartial("x".to_string())
    );
}

#[test]
fn closure_without_exit_is_a_failure() {
    let (sink, mut relay) = event_channel();
    sink.normal_line("half way").unwrap();
    drop(sink);
    let events = relay.pump(16);
    assert_eq!(
        events,
        vec![line("half way"), exit(-1, Some("worker terminated without reporting status"))]
    );
    assert_ne!(events[1].exit_code(), Some(0));
    assert!(!relay.is_draining());
}

#[test]
fn worker_lost_event_is_terminal() {
    let event = Event::worker_lost();
    assert!(event.is_terminal());
    assert_eq!(event, exit(-1, Some("worker terminated without reporting status")));
}

#[test]
fn nothing_is_observed_after_the_terminal_event() {
    let (sink, mut relay) = event_channel();
    let late = sink.fork();
    sink.normal_line("before").unwrap();
    sink.exit(Some(0)).unwrap();
    late.normal_line("after").unwrap();
    let events = relay.pump(16);
    assert_eq!(events, vec![line("before"), exit(0, None)]);
    assert_eq!(relay.pump(16), Vec::<Event>::new());
    assert_eq!(relay.advance(), RelayAction::Stop);
    assert!(!relay.is_draining());
}

#[test]
fn empty_channel_asks_for_a_yield() {
    let (sink, mut relay) = event_channel();
    assert_eq!(relay.advance(), RelayAction::Yield);
    assert_eq!(relay.pump(16), Vec::<Event>::new());
    assert!(relay.is_draining());
    sink.normal_line("now").unwrap();
    assert_eq!(relay.advance(), RelayAction::Dispatch(line("now")));
    assert!(relay.is_draining());
}

#[test]
fn pump_makes_no_more_polls_than_its_budget() {
    let (sink, mut relay) = event_channel();
    sink.normal_line("one").unwrap();
    sink.normal_line("two").unwrap();
    sink.normal_line("three").unwrap();
    assert_eq!(relay.pump(0), Vec::<Event>::new());
    assert_eq!(relay.pump(2), vec![line("one"), line("two")]);
    assert_eq!(relay.pump(2), vec![line("three")]);
}

#[test]
fn step_follows_the_poll() {
    let (_sink, receiver) = std::sync::mpsc::channel::<Event>();
    let mut relay = Relay::new(receiver);
    assert!(relay.is_draining());
    assert_eq!(relay.step(Poll::Empty), RelayAction::Yield);
    assert!(relay.is_draining());
    assert_eq!(relay.step(Poll::Message(line("x"))), RelayAction::Dispatch(line("x")));
    assert!(relay.is_draining());
    assert_eq!(relay.step(Poll::Message(exit(3, None))), RelayAction::Dispatch(exit(3, None)));
    assert!(!relay.is_draining());
    assert_eq!(relay.step(Poll::Message(line("y"))), RelayAction::Stop);
    assert_eq!(relay.step(Poll::Closed), RelayAction::Stop);
    assert_eq!(relay.step(Poll::Empty), RelayAction::Stop);
}

#[test]
fn step_on_closure_makes_up_the_exit() {
    let (_sink, receiver) = std::sync::mpsc::channel::<Event>();
    let mut relay = Relay::new(receiver);
    assert_eq!(relay.step(Poll::Closed), RelayAction::Dispatch(Event::worker_lost()));
    assert!(!relay.is_draining());
}

#[test]
fn many_events_arrive_in_order() {
    let (sink, mut relay) = event_channel();
    for i in 0..100 {
        sink.normal_line(&format!("line {}", i)).unwrap();
    }
    sink.finish(Ok(())).unwrap();
    let events = relay.pump(1000);
    assert_eq!(events.len(), 101);
    for i in 0..100 {
        assert_eq!(events[i], line(&format!("line {}", i)));
    }
    assert_eq!(events[100], exit(0, None));
}

#[test]
fn emit_hands_back_a_refused_event() {
    let (sink, relay) = event_channel();
    assert_eq!(sink.emit(line("taken")), Ok(()));
    drop(relay);
    assert_eq!(sink.emit(line("nobody listens")), Err(line("nobody listens")));
    assert_eq!(sink.emit(exit(0, None)), Err(exit(0, None)));
    assert_eq!(sink.normal_line("nobody listens"), Err(line("nobody listens")));
    assert_eq!(
        sink.error_partial("frag"),
        Err(Event::ErrorPartial("frag".to_string()))
    );
    assert_eq!(sink.finish(Err("lost".to_string())), Err(exit(-1, Some("lost"))));
}

#[test]
fn pump_after_closure_returns_nothing_more() {
    let (sink, mut relay) = event_channel();
    drop(sink);
    assert_eq!(relay.pump(8).len(), 1);
    assert_eq!(relay.pump(8), Vec::<Event>::new());
    assert!(!relay.is_draining());
}
