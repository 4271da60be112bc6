use edr_lite::agent::{
    clock_offset_ns, event_type_name, make_event, nanosec_to_timestamp, unix_nanos, GenEvent,
    GEN_EVENT_SIZE,
};

fn record() -> Vec<u8> {
    let mut b = vec![0u8; GEN_EVENT_SIZE];
    b[0] = 10;
    b[4..8].copy_from_slice(&4242u32.to_le_bytes());
    b[8..12].copy_from_slice(&1u32.to_le_bytes());
    b[12..16].copy_from_slice(&1000u32.to_le_bytes());
    b[16..20].copy_from_slice(&1001u32.to_le_bytes());
    b[24..32].copy_from_slice(&0x1122_3344_5566_7788u64.to_le_bytes());
    b[32..35].copy_from_slice(b"cat");
    b[48..60].copy_from_slice(b"/usr/bin/cat");
    b[560..564].copy_from_slice(&16777343u32.to_le_bytes());
    b[564..566].copy_from_slice(&443u16.to_le_bytes());
    b[568..576].copy_from_slice(&5_000_000u64.to_le_bytes());
    b
}

#[test]
fn decode_reads_every_field() {
    let e = GenEvent::from_bytes(&record()).unwrap();
    assert_eq!(e.event_type, 10);
    assert_eq!(e.pid, 4242);
    assert_eq!(e.ppid, 1);
    assert_eq!(e.uid, 1000);
    assert_eq!(e.gid, 1001);
    assert_eq!(e.tgid, 0x1122_3344_5566_7788);
    assert_eq!(&e.comm[..3], b"cat");
    assert_eq!(&e.filename[..12], b"/usr/bin/cat");
    assert_eq!(e.dst_ip, 16777343);
    assert_eq!(e.dst_port, 443);
    assert_eq!(e.time_stamp, 5_000_000);
}

#[test]
fn decode_refuses_short_buffers() {
    assert!(GenEvent::from_bytes(&record()[..GEN_EVENT_SIZE - 1]).is_none());
    assert!(GenEvent::from_bytes(&[]).is_none());
}

#[test]
fn decode_ignores_bytes_after_the_record() {
    let mut longer = record();
    longer.extend_from_slice(&[0xff; 40]);
    let a = GenEvent::from_bytes(&record()).unwrap();
    let b = GenEvent::from_bytes(&longer).unwrap();
    assert_eq!(a.pid, b.pid);
    assert_eq!(a.time_stamp, b.time_stamp);
    assert_eq!(a.filename, b.filename);
}

#[test]
fn default_record_is_zero() {
    let e = GenEvent::default();
    assert_eq!(e.pid, 0);
    assert!(e.filename.iter().all(|b| *b == 0));
}

#[test]
fn event_type_names() {
    let expected = [
        (10, "Execve"),
        (11, "Fork"),
        (12, "Exit"),
        (13, "Execveat"),
        (20, "Unlinkat"),
        (21, "Renameat"),
        (22, "Renameat2"),
        (30, "Connect"),
        (31, "Accept"),
        (32, "Bind"),
        (40, "Mount"),
        (41, "Unmount"),
        (50, "Chown"),
        (51, "Chmod"),
    ];
    for (code, name) in expected {
        assert_eq!(event_type_name(code), name);
    }
    for code in [0u8, 1, 14, 23, 33, 42, 52, 255] {
        assert_eq!(event_type_name(code), "Unknown");
    }
}

#[test]
fn unix_nanos_adds_the_offset() {
    assert_eq!(unix_nanos(5, 10), 15);
    assert_eq!(unix_nanos(1_000, -400), 600);
    assert_eq!(unix_nanos(0, (i64::MAX as i128) + 1), i64::MIN);
}

#[test]
fn clock_offset_is_wall_minus_monotonic() {
    assert_eq!(clock_offset_ns(10_000_000_000, 3, 500), 10_000_000_000 - 3_000_000_500);
    let offset = clock_offset_ns(1_700_000_000_000_000_000, 12, 34);
    assert_eq!(unix_nanos(12_000_000_034, offset), 1_700_000_000_000_000_000);
}

#[test]
fn timestamp_text() {
    assert_eq!(
        nanosec_to_timestamp(123_456_789, 1_700_000_000_000_000_000),
        "2023-11-14 22:13:20.123 UTC"
    );
    assert_eq!(nanosec_to_timestamp(0, 0), "1970-01-01 00:00:00.000 UTC");
}

#[test]
fn make_event_fills_every_field() {
    let raw = GenEvent::from_bytes(&record()).unwrap();
    let e = make_event(&raw, 1_700_000_000_000_000_000, Some(b"cat\0-n\0"));
    assert_eq!(e.event_type, "Execve");
    assert_eq!(e.pid, 4242);
    assert_eq!(e.ppid, 1);
    assert_eq!(e.uid, 1000);
    assert_eq!(e.gid, 1001);
    assert_eq!(e.tgid, 0x1122_3344_5566_7788);
    assert_eq!(e.comm, "cat");
    assert_eq!(e.filename, "/usr/bin/cat");
    assert_eq!(e.dst_ip, "16777343");
    assert_eq!(e.dst_port, "443");
    assert_eq!(e.time_stamp, "2023-11-14 22:13:20.005 UTC");
}

#[test]
fn make_event_without_cmdline() {
    let raw = GenEvent::default();
    let e = make_event(&raw, 0, None);
    assert_eq!(e.comm, "cmdline expired");
    assert_eq!(e.event_type, "Unknown");
    assert_eq!(e.filename, "");
    assert_eq!(e.dst_ip, "0");
}
