use tauri_plugin_iap::text::{format_i32, is_number, join, parse_i32, str_eq};

#[test]
fn parse_i32_reads_canonical_literals() {
    assert_eq!(parse_i32("0"), Some(0));
    assert_eq!(parse_i32("7"), Some(7));
    assert_eq!(parse_i32("-12"), Some(-12));
    assert_eq!(parse_i32("2147483647"), Some(i32::MAX));
    assert_eq!(parse_i32("-2147483648"), Some(i32::MIN));
}

#[test]
fn parse_i32_refuses_everything_else() {
    assert_eq!(parse_i32(""), None);
    assert_eq!(parse_i32("-"), None);
    assert_eq!(parse_i32("-0"), None);
    assert_eq!(parse_i32("007"), None);
    assert_eq!(parse_i32("1.0"), None);
    assert_eq!(parse_i32("1e3"), None);
    assert_eq!(parse_i32("+1"), None);
    assert_eq!(parse_i32(" 1"), None);
    assert_eq!(parse_i32("2147483648"), None);
    assert_eq!(parse_i32("-2147483649"), None);
    assert_eq!(parse_i32("99999999999999999999999999"), None);
    assert_eq!(parse_i32("١٢"), None);
}

#[test]
fn format_i32_writes_canonical_literals() {
    assert_eq!(format_i32(0), "0");
    assert_eq!(format_i32(5), "5");
    assert_eq!(format_i32(-1), "-1");
    assert_eq!(format_i32(1203), "1203");
    assert_eq!(format_i32(i32::MAX), "2147483647");
    assert_eq!(format_i32(i32::MIN), "-2147483648");
}

#[test]
fn format_then_parse_gives_the_number_back() {
    for n in [0, 1, -1, 9, 10, 99, 100, -100, 123456789, i32::MAX, i32::MIN] {
        assert_eq!(parse_i32(&format_i32(n)), Some(n));
    }
}

#[test]
fn join_puts_the_separator_between_neighbours() {
    assert_eq!(join(&vec![], ","), "");
    assert_eq!(join(&vec!["a".to_string()], ","), "a");
    assert_eq!(join(&vec!["a".to_string(), "b".to_string(), "c".to_string()], ","), "a,b,c");
}

#[test]
fn str_eq_compares_texts() {
    assert!(str_eq("id", "id"));
    assert!(!str_eq("id", "iD"));
    assert!(!str_eq("id", "ids"));
    assert!(str_eq("", ""));
    assert!(str_eq("prix €", "prix €"));
}

#[test]
fn is_number_takes_json_numbers() {
    for text in [
        "0", "-0", "7", "-12", "990000", "1.0", "-0.0", "0.5", "989999.9375", "1e5", "1E5",
        "1e+5", "1e-5", "1.5e300", "-2.25E-7", "18446744073709551615", "1.2345678901234568e22",
    ] {
        assert!(is_number(text), "{}", text);
    }
}

#[test]
fn is_number_refuses_everything_else() {
    for text in [
        "", "-", "+1", "01", "-01", "00", "1.", ".5", "1.e5", "1e", "1e+", "1e-", "e5", "1e5.0",
        "1 ", " 1", "1,0", "0x10", "NaN", "Infinity", "abc", "1.0.0", "1ee5", "--1", "١٢",
    ] {
        assert!(!is_number(text), "{}", text);
    }
}
