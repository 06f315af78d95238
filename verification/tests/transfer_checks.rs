use ota_agent::transfer::parse_content_length;
use ota_agent::transfer::DownloadProgress;

#[test]
fn parses_plain_decimal() {
    assert_eq!(parse_content_length(b"1000"), Some(1000));
}

#[test]
fn parses_zero() {
    assert_eq!(parse_content_length(b"0"), Some(0));
}

#[test]
fn empty_header_is_no_length() {
    assert_eq!(parse_content_length(b""), None);
}

#[test]
fn non_digit_is_no_length() {
    assert_eq!(parse_content_length(b"12a3"), None);
    assert_eq!(parse_content_length(b"+123"), None);
    assert_eq!(parse_content_length(b" 123"), None);
}

#[test]
fn largest_value_parses() {
    assert_eq!(parse_content_length(b"18446744073709551615"), Some(u64::MAX));
}

#[test]
fn value_past_the_largest_is_no_length() {
    assert_eq!(parse_content_length(b"18446744073709551616"), None);
    assert_eq!(parse_content_length(b"99999999999999999999999"), None);
}

#[test]
fn leading_zeroes_are_digits_too() {
    assert_eq!(parse_content_length(b"007"), Some(7));
}

#[test]
fn declared_length_completes_exactly() {
    let mut p = DownloadProgress::new(Some(5));
    assert!(!p.transfer_complete());
    assert!(p.record_chunk(2));
    assert!(!p.transfer_complete());
    assert!(!p.should_stop_reading());
    assert!(p.record_chunk(3));
    assert!(p.transfer_complete());
    assert!(p.should_stop_reading());
    assert_eq!(p.bytes_read_total, 5);
}

#[test]
fn short_count_is_incomplete() {
    let mut p = DownloadProgress::new(Some(5));
    assert!(p.record_chunk(4));
    assert!(!p.transfer_complete());
    assert!(!p.should_stop_reading());
}

#[test]
fn excess_count_is_incomplete() {
    let mut p = DownloadProgress::new(Some(5));
    assert!(p.record_chunk(6));
    assert!(!p.transfer_complete());
    assert!(p.should_stop_reading());
}

#[test]
fn unknown_length_accepts_any_nonempty_transfer() {
    let mut p = DownloadProgress::new(None);
    assert!(!p.transfer_complete());
    assert!(p.record_chunk(1));
    assert!(p.transfer_complete());
    assert!(!p.should_stop_reading());
}

#[test]
fn counter_overflow_is_refused_and_total_kept() {
    let mut p = DownloadProgress::new(None);
    assert!(p.record_chunk(u64::MAX));
    assert!(!p.record_chunk(1));
    assert_eq!(p.bytes_read_total, u64::MAX);
}
