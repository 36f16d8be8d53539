use ping_visits::decimal::{format_count, parse_count};

#[test]
fn parse_plain_numbers() {
    assert_eq!(parse_count(&b"0".to_vec()), Some(0));
    assert_eq!(parse_count(&b"42".to_vec()), Some(42));
    assert_eq!(parse_count(&b"007".to_vec()), Some(7));
}

#[test]
fn parse_signed_numbers() {
    assert_eq!(parse_count(&b"-7".to_vec()), Some(-7));
    assert_eq!(parse_count(&b"+5".to_vec()), Some(5));
    assert_eq!(parse_count(&b"-0".to_vec()), Some(0));
}

#[test]
fn parse_rejects_malformed_input() {
    assert_eq!(parse_count(&b"".to_vec()), None);
    assert_eq!(parse_count(&b"-".to_vec()), None);
    assert_eq!(parse_count(&b"+".to_vec()), None);
    assert_eq!(parse_count(&b"12a".to_vec()), None);
    assert_eq!(parse_count(&b" 12".to_vec()), None);
    assert_eq!(parse_count(&b"1.5".to_vec()), None);
    assert_eq!(parse_count(&b"+-3".to_vec()), None);
}

#[test]
fn parse_respects_the_i64_range() {
    assert_eq!(parse_count(&b"9223372036854775807".to_vec()), Some(i64::MAX));
    assert_eq!(parse_count(&b"9223372036854775808".to_vec()), None);
    assert_eq!(parse_count(&b"-9223372036854775808".to_vec()), Some(i64::MIN));
    assert_eq!(parse_count(&b"-9223372036854775809".to_vec()), None);
    assert_eq!(parse_count(&b"999999999999999999999999999999".to_vec()), None);
}

#[test]
fn format_writes_plain_decimal() {
    assert_eq!(format_count(0), b"0".to_vec());
    assert_eq!(format_count(42), b"42".to_vec());
    assert_eq!(format_count(-7), b"-7".to_vec());
    assert_eq!(format_count(i64::MAX), b"9223372036854775807".to_vec());
    assert_eq!(format_count(i64::MIN), b"-9223372036854775808".to_vec());
}

#[test]
fn format_then_parse_recovers_the_count() {
    for value in [0, 1, -1, 7, 600, -600, 1_000_000, i64::MAX, i64::MIN] {
        assert_eq!(parse_count(&format_count(value)), Some(value));
    }
}
