use node_console::amount::{parse_u64, sat_to_msat, DEFAULT_AMOUNT_SAT, MSAT_PER_SAT};

#[test]
fn constants() {
    assert_eq!(MSAT_PER_SAT, 1000);
    assert_eq!(DEFAULT_AMOUNT_SAT, 1);
}

#[test]
fn parse_u64_reads_decimal_numbers() {
    assert_eq!(parse_u64("0"), Some(0));
    assert_eq!(parse_u64("1"), Some(1));
    assert_eq!(parse_u64("50"), Some(50));
    assert_eq!(parse_u64("007"), Some(7));
    assert_eq!(parse_u64("+5"), Some(5));
    assert_eq!(parse_u64("18446744073709551615"), Some(u64::MAX));
    assert_eq!(parse_u64("00000000000000000000000000000000000000012"), Some(12));
}

#[test]
fn parse_u64_rejects_what_is_no_number() {
    assert_eq!(parse_u64(""), None);
    assert_eq!(parse_u64("+"), None);
    assert_eq!(parse_u64("-"), None);
    assert_eq!(parse_u64("-5"), None);
    assert_eq!(parse_u64("++5"), None);
    assert_eq!(parse_u64("5+"), None);
    assert_eq!(parse_u64("1x"), None);
    assert_eq!(parse_u64("x1"), None);
    assert_eq!(parse_u64(" 1"), None);
    assert_eq!(parse_u64("1 "), None);
    assert_eq!(parse_u64("1_000"), None);
    assert_eq!(parse_u64("1.5"), None);
    assert_eq!(parse_u64("\u{661}"), None);
}

#[test]
fn parse_u64_rejects_what_does_not_fit() {
    assert_eq!(parse_u64("18446744073709551616"), None);
    assert_eq!(parse_u64("99999999999999999999"), None);
    assert_eq!(parse_u64("184467440737095516150"), None);
    assert_eq!(parse_u64("99999999999999999999x"), None);
}

#[test]
fn parse_u64_agrees_with_std() {
    let texts = [
        "", "0", "+0", "-0", "+", "12345", "+12345", "0012", "18446744073709551615",
        "18446744073709551616", "+18446744073709551615", "1e3", "0x10", "٣", "12 ", "1\n",
    ];
    for text in texts {
        assert_eq!(parse_u64(text), text.parse::<u64>().ok(), "text {:?}", text);
    }
}

#[test]
fn sat_to_msat_multiplies_by_a_thousand() {
    assert_eq!(sat_to_msat(0), Some(0));
    assert_eq!(sat_to_msat(1), Some(1000));
    assert_eq!(sat_to_msat(50), Some(50000));
    assert_eq!(sat_to_msat(18446744073709551), Some(18446744073709551000));
}

#[test]
fn sat_to_msat_refuses_what_does_not_fit() {
    assert_eq!(sat_to_msat(18446744073709552), None);
    assert_eq!(sat_to_msat(u64::MAX), None);
}
