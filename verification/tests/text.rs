use anki_cli::text::{format_i64, parse_i64, parse_list, str_eq};

#[test]
fn parse_reads_plain_numbers() {
    assert_eq!(parse_i64("0"), Some(0));
    assert_eq!(parse_i64("7"), Some(7));
    assert_eq!(parse_i64("1234567890"), Some(1234567890));
    assert_eq!(parse_i64("0042"), Some(42));
}

#[test]
fn parse_reads_signs() {
    assert_eq!(parse_i64("+5"), Some(5));
    assert_eq!(parse_i64("-5"), Some(-5));
    assert_eq!(parse_i64("-0"), Some(0));
    assert_eq!(parse_i64("+0"), Some(0));
}

#[test]
fn parse_refuses_what_is_no_number() {
    assert_eq!(parse_i64(""), None);
    assert_eq!(parse_i64("-"), None);
    assert_eq!(parse_i64("+"), None);
    assert_eq!(parse_i64("--1"), None);
    assert_eq!(parse_i64("+-1"), None);
    assert_eq!(parse_i64(" 1"), None);
    assert_eq!(parse_i64("1 "), None);
    assert_eq!(parse_i64("12a"), None);
    assert_eq!(parse_i64("a12"), None);
    assert_eq!(parse_i64("1.5"), None);
    assert_eq!(parse_i64("1_000"), None);
    assert_eq!(parse_i64("0x10"), None);
}

#[test]
fn parse_refuses_digits_outside_ascii() {
    assert_eq!(parse_i64("\u{661}\u{662}"), None);
    assert_eq!(parse_i64("1\u{e9}"), None);
    assert_eq!(parse_i64("\u{ff11}"), None);
}

#[test]
fn parse_knows_the_limits() {
    assert_eq!(parse_i64("9223372036854775807"), Some(i64::MAX));
    assert_eq!(parse_i64("+9223372036854775807"), Some(i64::MAX));
    assert_eq!(parse_i64("9223372036854775808"), None);
    assert_eq!(parse_i64("-9223372036854775808"), Some(i64::MIN));
    assert_eq!(parse_i64("-9223372036854775809"), None);
    assert_eq!(parse_i64("99999999999999999999999999999999999999999999"), None);
    assert_eq!(parse_i64("-99999999999999999999999999999999999999999999"), None);
    assert_eq!(parse_i64("000000000000000000000000000000000000000000001"), Some(1));
    assert_eq!(parse_i64("92233720368547758070"), None);
}

#[test]
fn parse_agrees_with_the_standard_library() {
    let samples = [
        "", "0", "-", "+", "+1", "-1", "01", "-01", "++1", "1+", "1-", "9", "10", "-10", "abc", "1e3", "٣",
        "9223372036854775807", "9223372036854775808", "-9223372036854775808", "-9223372036854775809",
        "18446744073709551616", "00000000000000000000000009223372036854775807", "\n1", "1\n", "\t", "−1",
        "+ 1", "- 1", "1,000", "０", "4294967296", "-4294967296",
    ];
    for s in samples.iter() {
        assert_eq!(parse_i64(s), s.parse::<i64>().ok(), "on {:?}", s);
    }
}

#[test]
fn format_writes_numbers() {
    assert_eq!(format_i64(0), "0");
    assert_eq!(format_i64(7), "7");
    assert_eq!(format_i64(10), "10");
    assert_eq!(format_i64(-1), "-1");
    assert_eq!(format_i64(1234567890), "1234567890");
    assert_eq!(format_i64(i64::MAX), "9223372036854775807");
    assert_eq!(format_i64(i64::MIN), "-9223372036854775808");
}

#[test]
fn format_agrees_with_the_standard_library() {
    let mut v: i64 = 1;
    for _ in 0..62 {
        for d in [-1i64, 0, 1] {
            let x = v + d;
            assert_eq!(format_i64(x), x.to_string());
            assert_eq!(format_i64(-x), (-x).to_string());
        }
        v *= 2;
    }
}

#[test]
fn parse_inverts_format() {
    for v in [0i64, 1, -1, 9, 10, -10, 99, 100, 12345, -98765, i64::MAX, i64::MIN, i64::MAX - 1, i64::MIN + 1] {
        assert_eq!(parse_i64(&format_i64(v)), Some(v));
    }
}

#[test]
fn parse_list_keeps_order_and_passes_over_the_rest() {
    let texts: Vec<String> = ["3", "x", "1", "", "-2", "1"].iter().map(|s| s.to_string()).collect();
    assert_eq!(parse_list(&texts), vec![3, 1, -2, 1]);
    assert_eq!(parse_list(&vec![]), Vec::<i64>::new());
    assert_eq!(parse_list(&vec!["nope".to_string()]), Vec::<i64>::new());
}

#[test]
fn str_eq_compares_characters() {
    assert!(str_eq("", ""));
    assert!(str_eq("again", "again"));
    assert!(!str_eq("again", "agai"));
    assert!(!str_eq("agai", "again"));
    assert!(!str_eq("again", "agaim"));
    assert!(!str_eq("Again", "again"));
    assert!(str_eq("d\u{e9}j\u{e0}", "d\u{e9}j\u{e0}"));
    assert!(!str_eq("de\u{301}", "d\u{e9}"));
}
