use msg_transport::msg::{Message, MessageKind, Notification, Request, Response};
use msg_transport::queues::ClassifiedQueues;
use msg_transport::reader::{run_reader, ReadEvent, ReaderStatus};
use msg_transport::transport::{join_outcome, reader_outcome, ShutdownFlag, TransportError};
use msg_transport::writer::{run_writer, writer_step, WriteAction};

fn req(id: u64) -> Message {
    Message::Request(Request { id })
}

fn note(method: &str) -> Message {
    Message::Notification(Notification { method: method.to_string() })
}

fn resp(id: u64) -> Message {
    Message::Response(Response { id })
}

#[test]
fn routes_each_kind_to_its_queue() {
    let mut queues = ClassifiedQueues::new();
    let events = vec![
        ReadEvent::Decoded(req(1)),
        ReadEvent::Decoded(note("ping")),
        ReadEvent::Decoded(resp(2)),
    ];
    let flags = vec![false, false, false];
    let (consumed, status) = run_reader(&mut queues, events, &flags);
    assert_eq!(consumed, 3);
    assert_eq!(status, ReaderStatus::Running);
    assert_eq!(queues.pop_request(), Some(Request { id: 1 }));
    assert_eq!(queues.pop_notification(), Some(Notification { method: "ping".to_string() }));
    assert_eq!(queues.pop_response(), Some(Response { id: 2 }));
    assert_eq!(queues.pop_request(), None);
    assert_eq!(queues.pop_notification(), None);
    assert_eq!(queues.pop_response(), None);
}

#[test]
fn fifo_order_kept_within_each_kind() {
    let mut queues = ClassifiedQueues::new();
    let events = vec![
        ReadEvent::Decoded(req(1)),
        ReadEvent::Decoded(note("a")),
        ReadEvent::Decoded(req(2)),
        ReadEvent::Decoded(resp(10)),
        ReadEvent::Decoded(req(3)),
        ReadEvent::Decoded(note("b")),
    ];
    let flags = vec![false; 6];
    let (consumed, status) = run_reader(&mut queues, events, &flags);
    assert_eq!(consumed, 6);
    assert_eq!(status, ReaderStatus::Running);
    assert_eq!(queues.pop_request(), Some(Request { id: 1 }));
    assert_eq!(queues.pop_request(), Some(Request { id: 2 }));
    assert_eq!(queues.pop_request(), Some(Request { id: 3 }));
    assert_eq!(queues.pop_request(), None);
    assert_eq!(queues.pop_notification(), Some(Notification { method: "a".to_string() }));
    assert_eq!(queues.pop_notification(), Some(Notification { method: "b".to_string() }));
    assert_eq!(queues.pop_response(), Some(Response { id: 10 }));
}

#[test]
fn no_message_reaches_a_queue_of_another_kind() {
    let mut queues = ClassifiedQueues::new();
    let events = vec![ReadEvent::Decoded(note("only"))];
    let flags = vec![false];
    run_reader(&mut queues, events, &flags);
    assert_eq!(queues.pop_request(), None);
    assert_eq!(queues.pop_response(), None);
    assert_eq!(queues.pop_notification(), Some(Notification { method: "only".to_string() }));
}

#[test]
fn reader_stops_on_flag_after_routing_the_message_in_flight() {
    let mut queues = ClassifiedQueues::new();
    let events = vec![
        ReadEvent::Decoded(req(1)),
        ReadEvent::Decoded(req(2)),
        ReadEvent::Decoded(req(3)),
    ];
    // The flag is observed set at the second poll point: the second request
    // is still routed, the third is never consumed.
    let flags = vec![false, true, false];
    let (consumed, status) = run_reader(&mut queues, events, &flags);
    assert_eq!(consumed, 2);
    assert_eq!(status, ReaderStatus::Finished);
    assert_eq!(queues.pop_request(), Some(Request { id: 1 }));
    assert_eq!(queues.pop_request(), Some(Request { id: 2 }));
    assert_eq!(queues.pop_request(), None);
}

#[test]
fn closed_connection_ends_reader_with_empty_queues() {
    let mut queues = ClassifiedQueues::new();
    let events = vec![ReadEvent::EndOfStream];
    let flags = vec![false];
    let (consumed, status) = run_reader(&mut queues, events, &flags);
    assert_eq!(consumed, 1);
    assert_eq!(status, ReaderStatus::Finished);
    assert_eq!(queues.pop_request(), None);
    assert_eq!(queues.pop_notification(), None);
    assert_eq!(queues.pop_response(), None);
    assert_eq!(reader_outcome(status), Ok(()));
}

#[test]
fn malformed_input_aborts_reader_and_surfaces_at_join() {
    let mut queues = ClassifiedQueues::new();
    let events = vec![
        ReadEvent::Decoded(req(1)),
        ReadEvent::DecodeFailed,
        ReadEvent::Decoded(resp(9)),
    ];
    let flags = vec![false, false, false];
    let (consumed, status) = run_reader(&mut queues, events, &flags);
    assert_eq!(consumed, 2);
    assert_eq!(status, ReaderStatus::Failed);
    // What was validly routed before the failure is retained.
    assert_eq!(queues.pop_request(), Some(Request { id: 1 }));
    assert_eq!(queues.pop_response(), None);
    let reader_report = reader_outcome(status);
    assert_eq!(reader_report, Err(TransportError::Decode));
    assert_eq!(join_outcome(reader_report, Ok(())), Err(TransportError::Decode));
}

#[test]
fn writer_serializes_every_message_in_send_order() {
    let msgs = vec![req(1), note("ping"), resp(2)];
    let flags = vec![false, false, false];
    let written = run_writer(msgs.clone(), &flags);
    assert_eq!(written, msgs);
}

#[test]
fn writer_discards_everything_while_flag_is_set() {
    let msgs = vec![req(1), note("ping"), resp(2)];
    let flags = vec![true, true, true];
    let written = run_writer(msgs, &flags);
    assert_eq!(written, Vec::new());
}

#[test]
fn writer_stops_writing_once_flag_is_set() {
    let msgs = vec![req(5), note("x")];
    let flags = vec![false, true];
    let written = run_writer(msgs, &flags);
    assert_eq!(written, vec![req(5)]);
}

#[test]
fn writer_step_serializes_or_discards_by_flag() {
    assert_eq!(writer_step(req(5), false), WriteAction::Serialize(req(5)));
    assert_eq!(writer_step(note("x"), true), WriteAction::Discard);
}

#[test]
fn shutdown_flag_starts_clear_and_stays_set() {
    let mut flag = ShutdownFlag::new();
    assert!(!flag.poll());
    flag.request();
    assert!(flag.poll());
    flag.request();
    assert!(flag.poll());
}

#[test]
fn join_reports_the_first_fatal_error() {
    assert_eq!(join_outcome(Ok(()), Ok(())), Ok(()));
    assert_eq!(join_outcome(Err(TransportError::Decode), Ok(())), Err(TransportError::Decode));
    assert_eq!(join_outcome(Ok(()), Err(TransportError::Encode)), Err(TransportError::Encode));
    assert_eq!(
        join_outcome(Err(TransportError::Decode), Err(TransportError::Encode)),
        Err(TransportError::Decode)
    );
}

#[test]
fn message_kind_follows_the_tag() {
    assert_eq!(req(1).kind(), MessageKind::Request);
    assert_eq!(note("m").kind(), MessageKind::Notification);
    assert_eq!(resp(2).kind(), MessageKind::Response);
}

#[test]
fn direct_pushes_pop_in_fifo_order() {
    let mut queues = ClassifiedQueues::new();
    queues.push_response(Response { id: 7 });
    queues.push_response(Response { id: 8 });
    queues.push_notification(Notification { method: "n".to_string() });
    assert_eq!(queues.pop_response(), Some(Response { id: 7 }));
    assert_eq!(queues.pop_response(), Some(Response { id: 8 }));
    assert_eq!(queues.pop_response(), None);
    assert_eq!(queues.pop_notification(), Some(Notification { method: "n".to_string() }));
}

#[test]
fn reader_keeps_running_while_stream_is_open_and_flag_clear() {
    let mut queues = ClassifiedQueues::new();
    let events = vec![ReadEvent::Decoded(req(1)), ReadEvent::Decoded(req(2))];
    let flags = vec![false, false];
    let (consumed, status) = run_reader(&mut queues, events, &flags);
    assert_eq!(consumed, 2);
    assert_eq!(status, ReaderStatus::Running);
}
