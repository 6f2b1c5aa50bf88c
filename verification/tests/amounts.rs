use faucet_client::amount::{decimal_text, parse_amount};
use faucet_client::text::same_text;

#[test]
fn plain_numbers_are_amounts() {
    assert_eq!(parse_amount("0"), Some(0));
    assert_eq!(parse_amount("7"), Some(7));
    assert_eq!(parse_amount("1000"), Some(1000));
    assert_eq!(parse_amount("21000000"), Some(21_000_000));
}

#[test]
fn the_largest_amount_is_read() {
    assert_eq!(parse_amount("18446744073709551615"), Some(u64::MAX));
}

#[test]
fn an_amount_beyond_64_bits_is_no_amount() {
    assert_eq!(parse_amount("18446744073709551616"), None);
    assert_eq!(parse_amount("18446744073709551620"), None);
    assert_eq!(parse_amount("99999999999999999999"), None);
    assert_eq!(parse_amount("100000000000000000000000000000"), None);
}

#[test]
fn a_leading_plus_sign_is_accepted_once() {
    assert_eq!(parse_amount("+5"), Some(5));
    assert_eq!(parse_amount("+0"), Some(0));
    assert_eq!(parse_amount("++5"), None);
    assert_eq!(parse_amount("+"), None);
    assert_eq!(parse_amount("5+"), None);
}

#[test]
fn leading_zeros_do_not_count() {
    assert_eq!(parse_amount("007"), Some(7));
    assert_eq!(parse_amount("0000000000000000000000000000000000000001"), Some(1));
    assert_eq!(parse_amount("000018446744073709551615"), Some(u64::MAX));
}

#[test]
fn other_texts_are_no_amounts() {
    for text in [
        "", "-", "-1", "-0", " 5", "5 ", "1 000", "1_000", "1,000", "1.0", "1e3", "0x10", "abc",
        "12a", "a12", "lnbc1abc", "tb1qxyz", "\n5", "5\n", "\u{0661}\u{0662}", "\u{ff11}", "5\u{e9}",
        "\u{e9}5", "+\u{e9}",
    ] {
        assert_eq!(parse_amount(text), None, "{:?}", text);
    }
}

#[test]
fn amounts_are_read_as_the_standard_library_reads_them() {
    let mut samples: Vec<String> = Vec::new();
    for n in 0..2000u64 {
        samples.push(format!("{}", n));
        samples.push(format!("+{}", n));
        samples.push(format!("-{}", n));
        samples.push(format!("0{}", n));
        samples.push(format!("{}x", n));
        samples.push(format!(" {}", n));
    }
    for shift in 0..64u32 {
        let n = 1u64 << shift;
        samples.push(format!("{}", n));
        samples.push(format!("{}", n - 1));
        samples.push(format!("{}", u64::MAX - n));
        samples.push(format!("{}0", u64::MAX - n));
        samples.push(format!("{}", (u64::MAX as u128) + (n as u128)));
    }
    for text in samples {
        assert_eq!(parse_amount(&text), text.parse::<u64>().ok(), "{:?}", text);
    }
}

#[test]
fn numbers_are_written_in_decimal() {
    assert_eq!(decimal_text(0), "0");
    assert_eq!(decimal_text(9), "9");
    assert_eq!(decimal_text(10), "10");
    assert_eq!(decimal_text(404), "404");
    assert_eq!(decimal_text(1000), "1000");
    assert_eq!(decimal_text(u64::MAX), "18446744073709551615");
}

#[test]
fn written_numbers_read_back() {
    for shift in 0..64u32 {
        for n in [1u64 << shift, (1u64 << shift) - 1, u64::MAX - (1u64 << shift)] {
            let text = decimal_text(n);
            assert_eq!(text, format!("{}", n));
            assert_eq!(parse_amount(&text), Some(n));
        }
    }
    assert_eq!(parse_amount(&decimal_text(u64::MAX)), Some(u64::MAX));
}

#[test]
fn texts_are_compared_character_by_character() {
    assert!(same_text("", ""));
    assert!(same_text("help", "help"));
    assert!(!same_text("help", "hel"));
    assert!(!same_text("help", "helq"));
    assert!(!same_text("", "a"));
    assert!(same_text("caf\u{e9}", "caf\u{e9}"));
    assert!(!same_text("caf\u{e9}", "cafe\u{301}"));
}
