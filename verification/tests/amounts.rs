use tapsilat::text::{decimal, trim, CharClass};
use tapsilat::Amount;

#[test]
fn decimal_texts_are_read_exactly() {
    assert_eq!(Amount::parse("149.99"), Some(Amount::from_units(1_499_900_000_000)));
    assert_eq!(Amount::parse("149.9900000000"), Some(Amount::from_cents(14_999)));
    assert_eq!(Amount::parse("0.01"), Some(Amount::from_cents(1)));
    assert_eq!(Amount::parse("0"), Some(Amount::from_units(0)));
    assert_eq!(Amount::parse("10."), Some(Amount::from_cents(1_000)));
    assert_eq!(Amount::parse("-5.0"), Some(Amount::from_cents(-500)));
    assert_eq!(Amount::parse("-0.0000000000"), Some(Amount::from_units(0)));
    assert_eq!(Amount::parse("0.0000000001"), Some(Amount::from_units(1)));
    assert_eq!(Amount::parse("007.5"), Some(Amount::from_cents(750)));
    assert_eq!(
        Amount::parse("999999999999999999.9999999999"),
        Some(Amount::from_units(9_999_999_999_999_999_999_999_999_999))
    );
}

#[test]
fn texts_that_are_no_decimals() {
    for text in [
        "",
        "-",
        ".",
        ".5",
        "-.5",
        "+1",
        "1,5",
        "1.2.3",
        "1e3",
        " 1",
        "1 ",
        "--1",
        "1-",
        "NaN",
        "inf",
        "0.00000000001",
        "1000000000000000000",
        "12a",
        "1.a",
    ] {
        assert_eq!(Amount::parse(text), None, "{:?}", text);
    }
}

#[test]
fn amounts_are_written_in_the_shortest_form() {
    let text = |units: i128| Amount::from_units(units).to_text();
    assert_eq!(text(0), "0");
    assert_eq!(text(1_499_900_000_000), "149.99");
    assert_eq!(text(2_999_800_000_000), "299.98");
    assert_eq!(text(10_000_000_000), "1");
    assert_eq!(text(105_000_000_000), "10.5");
    assert_eq!(text(1), "0.0000000001");
    assert_eq!(text(100_000_000), "0.01");
    assert_eq!(text(-5_000_000_000), "-0.5");
    assert_eq!(text(-10_000_000_000), "-1");
    assert_eq!(text(1_000_000_000_010), "100.000000001");
    assert_eq!(text(i128::MAX), "17014118346046923173168730371.5884105727");
    assert_eq!(text(i128::MIN), "-17014118346046923173168730371.5884105728");
}

#[test]
fn written_amounts_are_read_back() {
    for units in [0i128, 1, -1, 99, 100_000_000, 1_499_900_000_000, -123_456_789_012_345] {
        let amount = Amount::from_units(units);
        assert_eq!(Amount::parse(&amount.to_text()), Some(amount), "{}", units);
    }
}

#[test]
fn signs_and_hundredths() {
    assert!(Amount::from_units(1).is_positive());
    assert!(!Amount::from_units(0).is_positive());
    assert!(!Amount::from_units(-1).is_positive());
    assert!(Amount::from_cents(1).is_whole_cents());
    assert!(Amount::from_units(0).is_whole_cents());
    assert!(Amount::from_cents(-250).is_whole_cents());
    assert!(!Amount::from_units(100_000_001).is_whole_cents());
    assert!(!Amount::from_units(-1).is_whole_cents());
    assert_eq!(Amount::from_cents(14_999).units, 1_499_900_000_000);
}

#[test]
fn sums_and_products_within_range() {
    let a = Amount::from_cents(14_999);
    assert_eq!(a.checked_add(&a), Some(Amount::from_cents(29_998)));
    assert_eq!(a.checked_mul(3), Some(Amount::from_cents(44_997)));
    assert_eq!(a.checked_mul(0), Some(Amount::from_units(0)));
    assert_eq!(a.checked_mul(-1), Some(Amount::from_cents(-14_999)));
    assert_eq!(Amount::from_units(i128::MAX).checked_add(&Amount::from_units(1)), None);
    assert_eq!(Amount::from_units(i128::MIN).checked_add(&Amount::from_units(-1)), None);
    assert_eq!(Amount::from_units(i128::MAX).checked_mul(2), None);
    assert_eq!(Amount::from_units(i128::MAX / 2 + 1).checked_mul(2), None);
    assert_eq!(Amount::from_units(i128::MIN).checked_mul(-1), None);
}

#[test]
fn numbers_in_decimal() {
    assert_eq!(decimal(0), "0");
    assert_eq!(decimal(7), "7");
    assert_eq!(decimal(10), "10");
    assert_eq!(decimal(401), "401");
    assert_eq!(decimal(u64::MAX as u128), "18446744073709551615");
    assert_eq!(decimal(u128::MAX), "340282366920938463463374607431768211455");
}

#[test]
fn trimming_takes_white_space_only() {
    let chars = |s: &str| s.chars().collect::<Vec<char>>();
    assert_eq!(trim(&chars("  a b \n")), chars("a b"));
    assert_eq!(trim(&chars("\u{3000}x\u{2028}")), chars("x"));
    assert_eq!(trim(&chars(" \t ")), chars(""));
    assert_eq!(trim(&chars("-a-")), chars("-a-"));
    assert!(CharClass::Whitespace.contains(' '));
    assert!(CharClass::Whitespace.contains('\u{b}'));
    assert!(CharClass::Whitespace.contains('\u{85}'));
    assert!(!CharClass::Whitespace.contains('\u{200b}'));
    assert!(!CharClass::Whitespace.contains('0'));
    assert!(CharClass::Digit.contains('7'));
    assert!(!CharClass::Digit.contains('\u{663}'));
}
