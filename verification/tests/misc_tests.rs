use edr_lite::config::KafkaConfig;
use edr_lite::probe::{
    handle_file_event, handle_proc_event, handle_record, record_kind, FileEvent, ProcEvent,
    RecordKind, RecordReport,
    FILE_EVENT_SIZE, PROC_EVENT_SIZE,
};
use edr_lite::server::publish_reply;
use edr_lite::telemetry::TelemetryEvent;

#[test]
fn kafka_defaults() {
    let c = KafkaConfig::default();
    assert_eq!(c.brokers, "localhost:9092");
    assert_eq!(c.topic, "events");
    assert_eq!(c.group_id, "kafka-streaming-group");
    assert_eq!(c.timeout_ms, 5000);
    assert_eq!(c.max_retries, 5);
}

#[test]
fn telemetry_default_is_empty() {
    let e = TelemetryEvent::default();
    assert_eq!(e.event_type, "");
    assert_eq!(e.pid, 0);
    assert_eq!(e.time_stamp, "");
}

#[test]
fn publish_replies() {
    assert_eq!(publish_reply(true), "Event queued successfully");
    assert_eq!(publish_reply(false), "Queue is closed");
}

#[test]
fn record_kinds() {
    assert_eq!(record_kind(&[0, 9]), RecordKind::Process);
    assert_eq!(record_kind(&[1]), RecordKind::File);
    assert_eq!(record_kind(&[2]), RecordKind::Other);
    assert_eq!(record_kind(&[255]), RecordKind::Other);
}

fn file_record(name: &[u8], op: u8) -> Vec<u8> {
    let mut b = vec![0u8; FILE_EVENT_SIZE];
    b[0] = 1;
    b[4..8].copy_from_slice(&77u32.to_le_bytes());
    b[8..8 + name.len()].copy_from_slice(name);
    b[520] = op;
    b
}

#[test]
fn file_records() {
    let r = handle_file_event(&file_record(b"/etc/passwd", 1)).unwrap();
    assert_eq!(r.pid, 77);
    assert_eq!(r.filename, "/etc/passwd");
    assert_eq!(r.operation, "Open");
    let r = handle_file_event(&file_record(b"/tmp/x", 3)).unwrap();
    assert_eq!(r.operation, "idk");
    assert!(handle_file_event(&file_record(b"", 1)).is_none());
    assert!(FileEvent::from_bytes(&[1u8; FILE_EVENT_SIZE - 1]).is_none());
    assert_eq!(FileEvent::default().operation, 0);
}

#[test]
fn proc_records() {
    let mut b = vec![0u8; PROC_EVENT_SIZE];
    b[4..8].copy_from_slice(&10u32.to_le_bytes());
    b[8..12].copy_from_slice(&20u32.to_le_bytes());
    b[12..16].copy_from_slice(&30u32.to_le_bytes());
    b[16..20].copy_from_slice(&40u32.to_le_bytes());
    b[20..24].copy_from_slice(&50u32.to_le_bytes());
    b[24..28].copy_from_slice(b"bash");
    b[40..88].copy_from_slice(&[0xaa; 48]);
    b[88..97].copy_from_slice(b"/bin/bash");
    b[600..608].copy_from_slice(&99u64.to_le_bytes());
    let r = handle_proc_event(&b);
    assert_eq!((r.pid, r.uid, r.gid, r.tgid, r.ppid), (10, 20, 30, 40, 50));
    assert_eq!(r.comm, "bash");
    assert_eq!(r.filename, "/bin/bash");
    assert_eq!(r.time_stamp, 99);
    assert!(ProcEvent::from_bytes(&b[..PROC_EVENT_SIZE - 1]).is_none());
    assert_eq!(ProcEvent::default().pid, 0);
}

#[test]
fn records_dispatch_on_header() {
    match handle_record(&file_record(b"/etc/hosts", 1)) {
        RecordReport::File(Some(r)) => assert_eq!(r.filename, "/etc/hosts"),
        other => panic!("unexpected {:?}", other),
    }
    assert!(matches!(handle_record(&file_record(b"", 1)), RecordReport::File(None)));
    assert!(matches!(handle_record(&[7, 0, 0]), RecordReport::Skipped));
    let mut p = vec![0u8; PROC_EVENT_SIZE];
    p[4..8].copy_from_slice(&5u32.to_le_bytes());
    match handle_record(&p) {
        RecordReport::Process(r) => assert_eq!(r.pid, 5),
        other => panic!("unexpected {:?}", other),
    }
}
