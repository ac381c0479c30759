use pacinfo::width::{out_width, parse_usize};

#[test]
fn plain_numbers_are_read() {
    assert_eq!(parse_usize("0"), Some(0));
    assert_eq!(parse_usize("7"), Some(7));
    assert_eq!(parse_usize("80"), Some(80));
    assert_eq!(parse_usize("120"), Some(120));
    assert_eq!(parse_usize("65536"), Some(65536));
}

#[test]
fn a_plus_sign_and_leading_zeros_are_accepted() {
    assert_eq!(parse_usize("+80"), Some(80));
    assert_eq!(parse_usize("+0"), Some(0));
    assert_eq!(parse_usize("007"), Some(7));
    assert_eq!(parse_usize("+007"), Some(7));
    assert_eq!(parse_usize("0000000000000000000000000000000000000012"), Some(12));
}

#[test]
fn anything_else_is_no_number() {
    assert_eq!(parse_usize(""), None);
    assert_eq!(parse_usize("+"), None);
    assert_eq!(parse_usize("-"), None);
    assert_eq!(parse_usize("-1"), None);
    assert_eq!(parse_usize("-0"), None);
    assert_eq!(parse_usize("++1"), None);
    assert_eq!(parse_usize("1+"), None);
    assert_eq!(parse_usize(" 80"), None);
    assert_eq!(parse_usize("80 "), None);
    assert_eq!(parse_usize("80\n"), None);
    assert_eq!(parse_usize("8 0"), None);
    assert_eq!(parse_usize("1_000"), None);
    assert_eq!(parse_usize("80.0"), None);
    assert_eq!(parse_usize("0x50"), None);
    assert_eq!(parse_usize("eighty"), None);
    assert_eq!(parse_usize("\u{ff18}\u{ff10}"), None);
    assert_eq!(parse_usize("\u{663}"), None);
}

#[test]
fn the_largest_number_is_read_and_larger_ones_are_not() {
    let max = usize::MAX.to_string();
    assert_eq!(parse_usize(&max), Some(usize::MAX));
    assert_eq!(parse_usize(&format!("+{}", max)), Some(usize::MAX));
    assert_eq!(parse_usize(&format!("{}0", max)), None);
    assert_eq!(parse_usize(&format!("1{}", max)), None);
    assert_eq!(parse_usize("18446744073709551616"), None);
    assert_eq!(parse_usize("99999999999999999999999999999999999999999"), None);
    assert_eq!(parse_usize("99999999999999999999999999999999999999999x"), None);
}

#[test]
fn numbers_are_read_as_std_reads_them() {
    let texts = [
        "", "0", "1", "9", "10", "42", "+42", "-42", "+", "-", "+-1", "00", "+00", "4 2", "42a",
        "a42", "4294967295", "4294967296", "18446744073709551615", "18446744073709551616",
        "184467440737095516150", "\u{664}\u{662}", "4\u{ff12}", "\u{0}", "1\u{0}", "1e3",
        "\u{661}", " ", "\t7",
    ];
    for text in texts {
        assert_eq!(parse_usize(text), text.parse::<usize>().ok());
    }
    for n in 0..2000usize {
        assert_eq!(parse_usize(&n.to_string()), Some(n));
    }
}

#[test]
fn a_given_width_overrides_the_detected_one() {
    assert_eq!(out_width(Some("40"), 80), 40);
    assert_eq!(out_width(Some("+132"), 80), 132);
    assert_eq!(out_width(Some("1"), 80), 1);
    assert_eq!(out_width(Some("080"), 24), 80);
}

#[test]
fn without_a_given_width_the_detected_one_is_taken() {
    assert_eq!(out_width(None, 80), 80);
    assert_eq!(out_width(None, 0), 0);
    assert_eq!(out_width(None, 211), 211);
}

#[test]
fn a_given_width_that_is_no_positive_number_does_not_count() {
    assert_eq!(out_width(Some(""), 80), 80);
    assert_eq!(out_width(Some("wide"), 80), 80);
    assert_eq!(out_width(Some("-40"), 80), 80);
    assert_eq!(out_width(Some("40 "), 80), 80);
    assert_eq!(out_width(Some("40.5"), 80), 80);
    assert_eq!(out_width(Some("0"), 80), 80);
    assert_eq!(out_width(Some("+0"), 80), 80);
    assert_eq!(out_width(Some("000"), 80), 80);
    assert_eq!(out_width(Some("99999999999999999999999999"), 80), 80);
}
