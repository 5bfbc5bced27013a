use dirwatch::BoundedQueue;
use dirwatch::DirectoryWatcher;
use dirwatch::EventPipeline;
use dirwatch::FsEvent;
use dirwatch::FsEventKind;
use dirwatch::MechanismError;
use dirwatch::PumpOutcome;
use dirwatch::Timestamp;
use dirwatch::encode_at;

fn create_event(path: &str) -> FsEvent {
    FsEvent { kind: FsEventKind::Create, paths: vec![path.to_string()] }
}

fn ts(i: u64) -> Timestamp {
    Timestamp { secs: 1700000000 + i, nanos: 0 }
}

fn wire_form(path: &str, t: Timestamp) -> String {
    encode_at(create_event(path), t).serialize()
}

#[test]
fn events_are_delivered_in_arrival_order() {
    let mut p = EventPipeline::new(8);
    let mut expected = Vec::new();
    for i in 0..5u64 {
        let path = format!("/tmp/a/f{}.txt", i);
        expected.push(wire_form(&path, ts(i)));
        let o = p.offer(Ok(create_event(&path)), ts(i));
        assert_eq!(o, PumpOutcome::Enqueued);
    }
    let mut delivered = Vec::new();
    while let Some(e) = p.dispatch() {
        delivered.push(e);
        p.complete_delivery(true);
    }
    assert_eq!(delivered, expected);
}

#[test]
fn mechanism_errors_are_dropped_silently() {
    let mut p = EventPipeline::new(4);
    let o = p.offer(
        Err(MechanismError { message: String::from("watch handle lost") }),
        ts(0),
    );
    assert_eq!(o, PumpOutcome::DroppedMechanismError);
    assert_eq!(p.pending_len(), 0);
    assert!(p.dispatch().is_none());
}

#[test]
fn full_queue_asks_producer_to_wait() {
    let mut p = EventPipeline::new(1);
    assert_eq!(p.offer(Ok(create_event("/tmp/a/1")), ts(0)), PumpOutcome::Enqueued);
    assert_eq!(p.offer(Ok(create_event("/tmp/a/2")), ts(1)), PumpOutcome::WouldBlock);
    assert_eq!(p.pending_len(), 1);
    let first = p.dispatch().unwrap();
    assert_eq!(first, wire_form("/tmp/a/1", ts(0)));
    p.complete_delivery(true);
    assert_eq!(p.offer(Ok(create_event("/tmp/a/2")), ts(1)), PumpOutcome::Enqueued);
}

#[test]
fn no_second_dispatch_while_one_is_in_flight() {
    let mut p = EventPipeline::new(4);
    p.offer(Ok(create_event("/tmp/a/1")), ts(0));
    assert!(p.worker_idle());
    let _in_flight = p.dispatch().unwrap();
    assert!(!p.worker_idle());
    p.complete_delivery(true);
    assert!(p.worker_idle());
}

#[test]
fn failing_callback_does_not_stop_the_next_delivery() {
    let mut p = EventPipeline::new(4);
    p.offer(Ok(create_event("/tmp/a/1")), ts(0));
    p.offer(Ok(create_event("/tmp/a/2")), ts(1));
    let first = p.dispatch().unwrap();
    assert_eq!(first, wire_form("/tmp/a/1", ts(0)));
    p.complete_delivery(false);
    assert!(p.worker_idle());
    let second = p.dispatch().unwrap();
    assert_eq!(second, wire_form("/tmp/a/2", ts(1)));
    p.complete_delivery(true);
}

#[test]
fn watched_directory_change_reaches_consumer_once() {
    let mut w = DirectoryWatcher::new();
    w.watch(String::from("/tmp/a"), true).unwrap();
    let o = w.handle_notification(Ok(create_event("/tmp/a/x.txt")), ts(7));
    assert_eq!(o, PumpOutcome::Enqueued);
    let delivered = w.dispatch().unwrap();
    assert_eq!(
        delivered,
        "{\"event\":{\"kind\":\"create\",\"paths\":[\"/tmp/a/x.txt\"]},\"timestamp\":1700000007.000000000}"
    );
    w.complete_delivery(true);
    assert!(w.dispatch().is_none());
}

#[test]
fn unwatched_directory_delivers_nothing() {
    let mut w = DirectoryWatcher::new();
    w.watch(String::from("/tmp/a"), true).unwrap();
    w.unwatch(&String::from("/tmp/a"), true).unwrap();
    assert!(w.get_watched_paths().is_empty());
    assert_eq!(w.pending_len(), 0);
    assert!(w.dispatch().is_none());
}

#[test]
fn burst_of_thousand_under_capacity_thirty_two_loses_nothing() {
    let mut w = DirectoryWatcher::new();
    w.watch(String::from("/tmp/a"), true).unwrap();
    let mut expected = Vec::new();
    let mut delivered = Vec::new();
    for i in 0..1000u64 {
        let path = format!("/tmp/a/f{}.txt", i);
        expected.push(wire_form(&path, ts(i)));
        loop {
            match w.handle_notification(Ok(create_event(&path)), ts(i)) {
                PumpOutcome::Enqueued => break,
                PumpOutcome::WouldBlock => {
                    let e = w.dispatch().unwrap();
                    delivered.push(e);
                    w.complete_delivery(true);
                }
                PumpOutcome::DroppedMechanismError => panic!("notification dropped"),
            }
        }
    }
    while let Some(e) = w.dispatch() {
        delivered.push(e);
        w.complete_delivery(true);
    }
    assert_eq!(delivered.len(), 1000);
    assert_eq!(delivered, expected);
}

#[test]
fn shutdown_after_drain_stops_the_worker() {
    let mut w = DirectoryWatcher::new();
    w.handle_notification(Ok(create_event("/tmp/a/x")), ts(0));
    let e = w.dispatch().unwrap();
    assert_eq!(e, wire_form("/tmp/a/x", ts(0)));
    w.complete_delivery(true);
    assert_eq!(w.pending_len(), 0);
    w.shutdown();
    assert!(!w.worker_idle());
}

#[test]
fn bounded_queue_is_first_in_first_out() {
    let mut q = BoundedQueue::new(2);
    assert!(q.is_empty());
    q.push(String::from("first"));
    q.push(String::from("second"));
    assert!(q.is_full());
    assert_eq!(q.len(), 2);
    assert_eq!(q.pop(), Some(String::from("first")));
    assert_eq!(q.pop(), Some(String::from("second")));
    assert_eq!(q.pop(), None);
}
