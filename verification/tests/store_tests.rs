use std::hash::{DefaultHasher, Hash, Hasher};

use edr_lite::archive;
use edr_lite::store::{calculate_hash, decode_event, encode_event, StoreError};
use edr_lite::telemetry::TelemetryEvent;

fn sample() -> TelemetryEvent {
    TelemetryEvent {
        event_type: "Fork".to_string(),
        pid: 26262,
        ppid: 26239,
        uid: 1000,
        gid: 1000,
        tgid: 112794431153814,
        comm: "cat".to_string(),
        filename: "/usr/bin/cat".to_string(),
        dst_ip: "0".to_string(),
        dst_port: "0".to_string(),
        time_stamp: "2023-11-14 22:13:20.123 UTC".to_string(),
    }
}

#[test]
fn stored_event_reads_back() {
    let e = sample();
    let bytes = encode_event(&e);
    let back = decode_event(&bytes).unwrap();
    assert_eq!(back.event_type, e.event_type);
    assert_eq!(back.pid, e.pid);
    assert_eq!(back.ppid, e.ppid);
    assert_eq!(back.uid, e.uid);
    assert_eq!(back.gid, e.gid);
    assert_eq!(back.tgid, e.tgid);
    assert_eq!(back.comm, e.comm);
    assert_eq!(back.filename, e.filename);
    assert_eq!(back.dst_ip, e.dst_ip);
    assert_eq!(back.dst_port, e.dst_port);
    assert_eq!(back.time_stamp, e.time_stamp);
}

#[test]
fn encoding_is_bincode_of_the_fields() {
    let e = sample();
    let expected = bincode::serde::encode_to_vec(
        (
            e.event_type.clone(),
            e.pid,
            e.ppid,
            e.uid,
            e.gid,
            e.tgid,
            e.comm.clone(),
            e.filename.clone(),
            e.dst_ip.clone(),
            e.dst_port.clone(),
            e.time_stamp.clone(),
        ),
        bincode::config::standard(),
    )
    .unwrap();
    assert_eq!(encode_event(&e), expected);
    assert_ne!(encode_event(&e), Vec::<u8>::new());
}

#[test]
fn garbage_does_not_decode() {
    assert!(matches!(decode_event(&[]), Err(StoreError::Undecodable)));
    assert!(matches!(decode_event(&[0xff, 0xff, 0xff]), Err(StoreError::Undecodable)));
}

#[derive(Hash)]
struct Mirror {
    event_type: String,
    pid: u32,
    ppid: u32,
    uid: u32,
    gid: u32,
    tgid: u64,
    comm: String,
    filename: String,
    dst_ip: String,
    dst_port: String,
    time_stamp: String,
}

#[test]
fn key_matches_derived_hash_on_little_endian_hosts() {
    let e = sample();
    let m = Mirror {
        event_type: e.event_type.clone(),
        pid: e.pid,
        ppid: e.ppid,
        uid: e.uid,
        gid: e.gid,
        tgid: e.tgid,
        comm: e.comm.clone(),
        filename: e.filename.clone(),
        dst_ip: e.dst_ip.clone(),
        dst_port: e.dst_port.clone(),
        time_stamp: e.time_stamp.clone(),
    };
    let mut h = DefaultHasher::new();
    m.hash(&mut h);
    if u16::from_ne_bytes([1, 0]) == 1 {
        assert_eq!(calculate_hash(&e), h.finish());
    }
    assert_eq!(calculate_hash(&e), calculate_hash(&sample()));
    let mut other = sample();
    other.pid += 1;
    assert_ne!(calculate_hash(&e), calculate_hash(&other));
}

#[test]
fn archived_event_key_matches_derived_hash() {
    let g = archive::GenEvent {
        event_id: "1".to_string(),
        event_type: 11,
        pid: 26262,
        ppid: 26239,
        uid: 1000,
        gid: 1000,
        tgid: 7,
        comm: "cat".to_string(),
        filename: "/usr/bin/cat".to_string(),
        dst_ip: "127.0.0.1".to_string(),
        dst_port: 443,
        time_stamp: "3ms".to_string(),
    };
    let mut h = DefaultHasher::new();
    g.hash(&mut h);
    if u16::from_ne_bytes([1, 0]) == 1 {
        assert_eq!(archive::calculate_hash(&g), h.finish());
    }
}

#[test]
fn huge_length_prefix_is_refused_without_panicking() {
    let mut bytes = vec![253u8];
    bytes.extend_from_slice(&[0xff; 8]);
    assert!(matches!(decode_event(&bytes), Err(StoreError::Undecodable)));
    let mut big = vec![253u8];
    big.extend_from_slice(&(1u64 << 63).to_le_bytes());
    assert!(matches!(decode_event(&big), Err(StoreError::Undecodable)));
}
