use tms_heartbeat::heartbeat::Heartbeat;
use tms_heartbeat::identity::DeviceId;
use tms_heartbeat::publisher::Publisher;
use tms_heartbeat::publisher::PublisherAction;
use tms_heartbeat::publisher::PublisherEvent;
use tms_heartbeat::received_line;
use tms_heartbeat::sent_line;
use tms_heartbeat::subscriber::Subscriber;
use tms_heartbeat::subscriber::SubscriberAction;
use tms_heartbeat::subscriber::SubscriberEvent;

fn tick(p: &mut Publisher) -> Heartbeat {
    match p.step(PublisherEvent::Tick) {
        PublisherAction::Emit(h) => h,
        PublisherAction::ReportStatus => panic!("a tick must emit"),
    }
}

#[test]
fn ticks_emit_consecutive_sequence_numbers() {
    let mut p = Publisher::new(DeviceId::generate());
    for expected in 0u32..5 {
        let h = tick(&mut p);
        assert_eq!(h.sequence_number, expected);
    }
}

#[test]
fn write_failures_do_not_disturb_numbering() {
    // A failed submission is only reported; the next tick still emits the
    // next sequence number, with no gap and no redelivery.
    let mut p = Publisher::new(DeviceId::generate());
    let h0 = tick(&mut p);
    assert!(p.on_write_outcome(false));
    let h1 = tick(&mut p);
    assert!(!p.on_write_outcome(true));
    let h2 = tick(&mut p);
    assert_eq!((h0.sequence_number, h1.sequence_number, h2.sequence_number), (0, 1, 2));
}

#[test]
fn status_events_do_not_disturb_numbering() {
    let mut p = Publisher::new(DeviceId::generate());
    let h0 = tick(&mut p);
    assert!(matches!(p.step(PublisherEvent::Status), PublisherAction::ReportStatus));
    let h1 = tick(&mut p);
    assert_eq!(h0.sequence_number, 0);
    assert_eq!(h1.sequence_number, 1);
}

#[test]
fn every_heartbeat_carries_the_process_identity() {
    let d = DeviceId::generate();
    let id = d.as_hex().to_string();
    let mut p = Publisher::new(d);
    for _ in 0..4 {
        let h = tick(&mut p);
        assert_eq!(h.device_id, id);
    }
}

#[test]
fn emitting_run_reports_expected_lines() {
    // One emitting process, three ticks: the reported lines in order.
    let mut p = Publisher::new(DeviceId::generate());
    let mut lines = Vec::new();
    for _ in 0..3 {
        let h = tick(&mut p);
        lines.push(sent_line(h.sequence_number));
    }
    assert_eq!(
        lines,
        vec![
            "Sent TMS Heartbeat sequenceNumber 0",
            "Sent TMS Heartbeat sequenceNumber 1",
            "Sent TMS Heartbeat sequenceNumber 2",
        ]
    );
}

#[test]
fn subscriber_reports_in_delivery_order() {
    // One observer fed by one emitter: the reported lines match the
    // emitter's identity and its increasing counters, in delivery order.
    let d = DeviceId::generate();
    let id = d.as_hex().to_string();
    let mut p = Publisher::new(d);
    let mut s = Subscriber::new();
    let mut got = Vec::new();
    for _ in 0..3 {
        let h = tick(&mut p);
        match s.step(SubscriberEvent::Sample(h)) {
            SubscriberAction::Report(line) => got.push(line),
            _ => panic!("a delivered heartbeat must be reported"),
        }
    }
    for (n, line) in got.iter().enumerate() {
        assert_eq!(
            *line,
            format!("Received TMS Heartbeat: deviceId {}, sequenceNumber {}", id, n)
        );
    }
}

#[test]
fn subscriber_status_events_leave_listening_state() {
    let mut s = Subscriber::new();
    assert!(matches!(s.step(SubscriberEvent::Status), SubscriberAction::ReportStatus));
    let h = Heartbeat { device_id: String::from("ab"), sequence_number: 0 };
    assert!(matches!(s.step(SubscriberEvent::Sample(h)), SubscriberAction::Report(_)));
}

#[test]
fn read_failure_halts_all_reporting() {
    let mut s = Subscriber::new();
    let h0 = Heartbeat { device_id: String::from("ab"), sequence_number: 0 };
    assert!(matches!(s.step(SubscriberEvent::Sample(h0)), SubscriberAction::Report(_)));
    assert!(matches!(s.step(SubscriberEvent::ReadFailure), SubscriberAction::Halt));
    let h1 = Heartbeat { device_id: String::from("ab"), sequence_number: 1 };
    assert!(matches!(s.step(SubscriberEvent::Sample(h1)), SubscriberAction::Ignore));
    assert!(matches!(s.step(SubscriberEvent::Status), SubscriberAction::Ignore));
    assert!(matches!(s.step(SubscriberEvent::ReadFailure), SubscriberAction::Ignore));
}

#[test]
fn two_emitters_one_observer() {
    // Two emitting processes, one observer: the observer's output shows two
    // distinct identities, each with its own independently increasing counter.
    let da = DeviceId::generate();
    let db = DeviceId::generate();
    let ida = da.as_hex().to_string();
    let idb = db.as_hex().to_string();
    assert_ne!(ida, idb);
    let mut pa = Publisher::new(da);
    let mut pb = Publisher::new(db);
    let mut s = Subscriber::new();
    let mut seen: Vec<(String, u32)> = Vec::new();
    for round in 0..3 {
        for p in [&mut pa, &mut pb] {
            let h = tick(p);
            assert_eq!(h.sequence_number, round);
            let line = received_line(&h);
            match s.step(SubscriberEvent::Sample(h)) {
                SubscriberAction::Report(got) => assert_eq!(got, line),
                _ => panic!("a delivered heartbeat must be reported"),
            }
            seen.push((line, round));
        }
    }
    let from_a: Vec<&(String, u32)> = seen.iter().filter(|(l, _)| l.contains(&ida)).collect();
    let from_b: Vec<&(String, u32)> = seen.iter().filter(|(l, _)| l.contains(&idb)).collect();
    assert_eq!(from_a.len(), 3);
    assert_eq!(from_b.len(), 3);
    for (i, (_, n)) in from_a.iter().enumerate() {
        assert_eq!(*n as usize, i);
    }
    for (i, (_, n)) in from_b.iter().enumerate() {
        assert_eq!(*n as usize, i);
    }
}
