use sloppy::balance_log::format_balance;
use sloppy::balance_log::parse_balance;

#[test]
fn format_gives_plain_decimal_digits() {
    assert_eq!(format_balance(0), b"0".to_vec());
    assert_eq!(format_balance(7), b"7".to_vec());
    assert_eq!(format_balance(42), b"42".to_vec());
    assert_eq!(format_balance(100000), b"100000".to_vec());
    assert_eq!(format_balance(u64::MAX), b"18446744073709551615".to_vec());
}

#[test]
fn parse_accepts_digit_lines() {
    assert_eq!(parse_balance(b"0"), Some(0));
    assert_eq!(parse_balance(b"00042"), Some(42));
    assert_eq!(parse_balance(b"1000"), Some(1000));
    assert_eq!(parse_balance(b"18446744073709551615"), Some(u64::MAX));
}

#[test]
fn parse_rejects_empty_line() {
    assert_eq!(parse_balance(b""), None);
}

#[test]
fn parse_rejects_non_digits() {
    assert_eq!(parse_balance(b"12a"), None);
    assert_eq!(parse_balance(b"+12"), None);
    assert_eq!(parse_balance(b"-12"), None);
    assert_eq!(parse_balance(b" 12"), None);
    assert_eq!(parse_balance(b"12\n"), None);
    assert_eq!(parse_balance(b"1.5"), None);
}

#[test]
fn parse_rejects_values_too_large() {
    assert_eq!(parse_balance(b"18446744073709551616"), None);
    assert_eq!(parse_balance(b"99999999999999999999999999"), None);
}

#[test]
fn stored_balance_reads_back_unchanged() {
    for &v in &[0u64, 1, 9, 10, 99, 100, 12345, 86400, u64::MAX - 1, u64::MAX] {
        assert_eq!(parse_balance(&format_balance(v)), Some(v));
    }
}
