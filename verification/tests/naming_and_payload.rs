use screenshot_app::b64::encode_base64;
use screenshot_app::error::Error;
use screenshot_app::screenshot::{decode_screenshot_payload, screenshot_filename};
use screenshot_app::timestamp::{default_filename, Timestamp};

fn ts(year: i64, month: u32, day: u32, hour: u32, minute: u32, second: u32) -> Timestamp {
    Timestamp::new(year, month, day, hour, minute, second).unwrap()
}

#[test]
fn default_filename_prints_the_timestamp_pattern() {
    assert_eq!(default_filename(&ts(2026, 1, 2, 3, 4, 5)), "screenshot_20260102_030405.jpg");
    assert_eq!(default_filename(&ts(999, 12, 31, 23, 59, 59)), "screenshot_09991231_235959.jpg");
    assert_eq!(default_filename(&ts(0, 1, 1, 0, 0, 0)), "screenshot_00000101_000000.jpg");
}

#[test]
fn filename_prefers_the_callers_name() {
    let t = ts(2026, 1, 2, 3, 4, 5);
    assert_eq!(screenshot_filename(Some(String::from("mine.jpg")), &t), "mine.jpg");
    assert_eq!(screenshot_filename(None, &t), "screenshot_20260102_030405.jpg");
}

#[test]
fn timestamp_rejects_unprintable_components() {
    assert!(Timestamp::new(10000, 1, 1, 0, 0, 0).is_none());
    assert!(Timestamp::new(-1, 1, 1, 0, 0, 0).is_none());
    assert!(Timestamp::new(2026, 0, 1, 0, 0, 0).is_none());
    assert!(Timestamp::new(2026, 13, 1, 0, 0, 0).is_none());
    assert!(Timestamp::new(2026, 1, 0, 0, 0, 0).is_none());
    assert!(Timestamp::new(2026, 1, 32, 0, 0, 0).is_none());
    assert!(Timestamp::new(2026, 1, 1, 24, 0, 0).is_none());
    assert!(Timestamp::new(2026, 1, 1, 0, 60, 0).is_none());
    assert!(Timestamp::new(2026, 1, 1, 0, 0, 60).is_none());
    assert!(Timestamp::new(2026, 2, 28, 23, 59, 59).is_some());
}

#[test]
fn clock_reads_a_printable_timestamp() {
    let t = screenshot_app::timestamp::now().unwrap();
    assert!(t.year <= 9999);
    assert!((1..=12).contains(&t.month));
    assert!((1..=31).contains(&t.day));
    assert!(t.hour <= 23);
    assert!(t.minute <= 59);
    assert!(t.second <= 59);
}

#[test]
fn base64_encode_matches_known_prints() {
    assert_eq!(encode_base64(&vec![0, 0, 0]).unwrap(), "AAAA");
    assert_eq!(encode_base64(&vec![104, 101, 108, 108, 111]).unwrap(), "aGVsbG8=");
    assert_eq!(encode_base64(&Vec::new()).unwrap(), "");
}

#[test]
fn valid_payload_decodes_to_the_exact_bytes() {
    let bytes: Vec<u8> = (0u16..=255).map(|b| b as u8).collect();
    let payload = encode_base64(&bytes).unwrap();
    let decoded = decode_screenshot_payload(&payload).unwrap();
    assert_eq!(decoded, bytes);
}

#[test]
fn known_payload_decodes() {
    assert_eq!(decode_screenshot_payload("AAAA").unwrap(), vec![0, 0, 0]);
    assert_eq!(decode_screenshot_payload("aGVsbG8=").unwrap(), vec![104, 101, 108, 108, 111]);
    assert_eq!(decode_screenshot_payload("").unwrap(), Vec::<u8>::new());
}

#[test]
fn malformed_payload_fails_with_decode_failed() {
    assert!(matches!(decode_screenshot_payload("not@base64!"), Err(Error::DecodeFailed)));
    assert!(matches!(decode_screenshot_payload("AAA"), Err(Error::DecodeFailed)));
    assert!(matches!(decode_screenshot_payload("≈≈≈≈"), Err(Error::DecodeFailed)));
}
