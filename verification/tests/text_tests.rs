use edr_lite::text::{convert_result_to_string, decimal_string};

#[test]
fn c_string_stops_at_first_nul() {
    assert_eq!(convert_result_to_string(b"cat\0-n\0file"), "cat");
}

#[test]
fn c_string_without_nul_keeps_every_byte() {
    assert_eq!(convert_result_to_string(b"/usr/bin/ls"), "/usr/bin/ls");
}

#[test]
fn c_string_empty_and_leading_nul() {
    assert_eq!(convert_result_to_string(b""), "");
    assert_eq!(convert_result_to_string(b"\0abc"), "");
}

#[test]
fn c_string_reads_one_character_per_byte() {
    let s = convert_result_to_string(&[0x63, 0xe9, 0x41, 0x00]);
    assert_eq!(s, "c\u{e9}A");
    assert_eq!(s.chars().count(), 3);
}

#[test]
fn decimal_matches_to_string() {
    for n in [0u64, 7, 10, 99, 100, 3000, 65535, 4294967295, u64::MAX] {
        assert_eq!(decimal_string(n), n.to_string());
    }
}

#[test]
fn decimal_round_trip_on_values() {
    for n in [0u64, 1, 42, 1000, 16777343] {
        let s = decimal_string(n);
        assert_eq!(s.parse::<u64>().unwrap(), n);
        assert!(s.chars().all(|c| c.is_ascii_digit()));
        assert!(n == 0 || !s.starts_with('0'));
    }
}
