use ballast::address::NexUrl;
use ballast::engine::{request_line, FetchError, Worker, WorkerAction, WorkerEvent};

fn request(s: &str, stale_cancel: bool) -> WorkerEvent {
    WorkerEvent::Request { address: NexUrl::parse(s).unwrap(), stale_cancel }
}

#[test]
fn request_line_ends_in_one_newline() {
    assert_eq!(request_line("/docs/"), "/docs/\n");
    assert_eq!(request_line(""), "/\n");
}

#[test]
fn full_fetch_cycle() {
    let mut w = Worker::new();
    assert!(w.is_idle());
    match w.step(request("nex://h.test:71/a/b", false)) {
        WorkerAction::Connect { drain_stale_cancel, host, port } => {
            assert!(!drain_stale_cancel);
            assert_eq!(host, "h.test");
            assert_eq!(port, 71);
        }
        other => panic!("unexpected {:?}", other),
    }
    match w.step(WorkerEvent::Connected) {
        WorkerAction::SendAndRead(line) => assert_eq!(line, "/a/b\n"),
        other => panic!("unexpected {:?}", other),
    }
    match w.step(WorkerEvent::Received(b"hi\n=> x".to_vec())) {
        WorkerAction::Deliver(Ok(text)) => assert_eq!(text, "hi\n=> x"),
        other => panic!("unexpected {:?}", other),
    }
    assert!(w.is_idle());
}

#[test]
fn invalid_bytes_are_replaced() {
    let mut w = Worker::new();
    w.step(request("nex://h/", false));
    w.step(WorkerEvent::Connected);
    match w.step(WorkerEvent::Received(vec![b'a', 0xff, b'b'])) {
        WorkerAction::Deliver(Ok(text)) => assert_eq!(text, "a\u{FFFD}b"),
        other => panic!("unexpected {:?}", other),
    }
}

#[test]
fn cancel_while_connecting() {
    let mut w = Worker::new();
    w.step(request("nex://h/", false));
    assert!(matches!(w.step(WorkerEvent::Cancelled), WorkerAction::Deliver(Err(FetchError::Cancelled))));
    assert!(w.is_idle());
    assert!(matches!(w.step(request("nex://g/", false)), WorkerAction::Connect { .. }));
}

#[test]
fn cancel_while_reading() {
    let mut w = Worker::new();
    w.step(request("nex://h/", false));
    w.step(WorkerEvent::Connected);
    assert!(matches!(w.step(WorkerEvent::Cancelled), WorkerAction::Deliver(Err(FetchError::Cancelled))));
    assert!(w.is_idle());
}

#[test]
fn stale_cancel_is_drained_first() {
    let mut w = Worker::new();
    match w.step(request("nex://h/", true)) {
        WorkerAction::Connect { drain_stale_cancel, .. } => assert!(drain_stale_cancel),
        other => panic!("unexpected {:?}", other),
    }
}

#[test]
fn failures_are_classified() {
    let mut w = Worker::new();
    w.step(request("nex://h/", false));
    match w.step(WorkerEvent::ConnectFailed("refused".to_string())) {
        WorkerAction::Deliver(Err(FetchError::ConnectionFailed(why))) => assert_eq!(why, "refused"),
        other => panic!("unexpected {:?}", other),
    }
    w.step(request("nex://h/", false));
    assert!(matches!(
        w.step(WorkerEvent::Unresolvable),
        WorkerAction::Deliver(Err(FetchError::InvalidAddress))
    ));
    w.step(request("nex://h/", false));
    w.step(WorkerEvent::Connected);
    match w.step(WorkerEvent::ReadFailed("reset".to_string())) {
        WorkerAction::Deliver(Err(FetchError::ConnectionFailed(why))) => assert_eq!(why, "reset"),
        other => panic!("unexpected {:?}", other),
    }
}

#[test]
fn queue_closed_stops_and_stray_events_are_ignored() {
    let mut w = Worker::new();
    assert!(matches!(w.step(WorkerEvent::Connected), WorkerAction::Ignore));
    assert!(matches!(w.step(WorkerEvent::Cancelled), WorkerAction::Ignore));
    assert!(w.is_idle());
    assert!(matches!(w.step(WorkerEvent::QueueClosed), WorkerAction::Stop));
    assert!(w.is_stopped());
    assert!(matches!(w.step(request("nex://h/", false)), WorkerAction::Ignore));
}
