use serial_tool::baud::{baud_rates, is_standard, parse_baud};

#[test]
fn parses_the_offered_rates() {
    for rate in baud_rates() {
        assert_eq!(parse_baud(&format!("{}", rate)), Some(rate));
        assert!(is_standard(rate));
    }
}

#[test]
fn offered_rates() {
    assert_eq!(
        baud_rates(),
        vec![
            300, 600, 750, 1200, 2400, 4800, 9600, 19200, 38400, 57600, 115200, 230400, 460800,
            500000, 921600, 1000000, 2000000
        ]
    );
}

#[test]
fn other_rates_are_not_standard() {
    assert!(!is_standard(0));
    assert!(!is_standard(9601));
    assert!(!is_standard(u32::MAX));
}

#[test]
fn parse_accepts_digits_only() {
    assert_eq!(parse_baud("9600"), Some(9600));
    assert_eq!(parse_baud("1"), Some(1));
    assert_eq!(parse_baud("0009600"), Some(9600));
    assert_eq!(parse_baud(""), None);
    assert_eq!(parse_baud("12a"), None);
    assert_eq!(parse_baud("a12"), None);
    assert_eq!(parse_baud("+9600"), None);
    assert_eq!(parse_baud(" 9600"), None);
    assert_eq!(parse_baud("９６００"), None);
}

#[test]
fn parse_rejects_zero() {
    assert_eq!(parse_baud("0"), None);
    assert_eq!(parse_baud("0000"), None);
}

#[test]
fn parse_bounds() {
    assert_eq!(parse_baud("4294967295"), Some(u32::MAX));
    assert_eq!(parse_baud("4294967296"), None);
    assert_eq!(parse_baud("42949672950"), None);
    assert_eq!(parse_baud("99999999999999999999999999"), None);
    assert_eq!(parse_baud("4294967296x"), None);
}
