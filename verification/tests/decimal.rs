use http_proxy::decimal::{parse_u64, push_decimal};

fn written(n: u64) -> Vec<u8> {
    let mut buffer = Vec::new();
    push_decimal(&mut buffer, n);
    buffer
}

#[test]
fn parse_reads_plain_numbers() {
    assert_eq!(parse_u64(b"0"), Some(0));
    assert_eq!(parse_u64(b"7"), Some(7));
    assert_eq!(parse_u64(b"123"), Some(123));
    assert_eq!(parse_u64(b"381317710382661632"), Some(381317710382661632));
}

#[test]
fn parse_takes_a_plus_sign_and_leading_zeros() {
    assert_eq!(parse_u64(b"+5"), Some(5));
    assert_eq!(parse_u64(b"000123"), Some(123));
    assert_eq!(parse_u64(b"+000"), Some(0));
}

#[test]
fn parse_refuses_what_is_no_number() {
    assert_eq!(parse_u64(b""), None);
    assert_eq!(parse_u64(b"+"), None);
    assert_eq!(parse_u64(b"-1"), None);
    assert_eq!(parse_u64(b"++1"), None);
    assert_eq!(parse_u64(b"12a"), None);
    assert_eq!(parse_u64(b" 12"), None);
    assert_eq!(parse_u64(b"12 "), None);
    assert_eq!(parse_u64(b"1_000"), None);
    assert_eq!(parse_u64("１２".as_bytes()), None);
}

#[test]
fn parse_stops_at_the_largest_number() {
    assert_eq!(parse_u64(b"18446744073709551615"), Some(u64::MAX));
    assert_eq!(parse_u64(b"18446744073709551616"), None);
    assert_eq!(parse_u64(b"18446744073709551620"), None);
    assert_eq!(parse_u64(b"99999999999999999999"), None);
    assert_eq!(parse_u64(b"184467440737095516150"), None);
    assert_eq!(parse_u64(b"18446744073709551616x"), None);
}

#[test]
fn parse_agrees_with_the_standard_library() {
    let samples = [
        "", "+", "-", "0", "+0", "-0", "1", "42", "0042", "+42", "4 2", "42\n", "x", "0x10",
        "18446744073709551615", "18446744073709551616", "+18446744073709551615",
        "27670116110564327424", "1e3", "٣",
    ];
    for sample in samples {
        assert_eq!(parse_u64(sample.as_bytes()), sample.parse::<u64>().ok(), "{:?}", sample);
    }
}

#[test]
fn digits_are_written_without_leading_zeros() {
    assert_eq!(written(0), b"0".to_vec());
    assert_eq!(written(9), b"9".to_vec());
    assert_eq!(written(10), b"10".to_vec());
    assert_eq!(written(200), b"200".to_vec());
    assert_eq!(written(65535), b"65535".to_vec());
    assert_eq!(written(u64::MAX), b"18446744073709551615".to_vec());
}

#[test]
fn digits_are_appended_to_what_is_there() {
    let mut buffer = b"/api/v".to_vec();
    push_decimal(&mut buffer, 8);
    assert_eq!(buffer, b"/api/v8".to_vec());
}

#[test]
fn what_is_written_is_read_back() {
    for n in [0u64, 1, 9, 10, 11, 99, 100, 101, 12345, 4294967296, u64::MAX - 1, u64::MAX] {
        assert_eq!(parse_u64(&written(n)), Some(n));
        assert_eq!(written(n), n.to_string().into_bytes());
    }
}
