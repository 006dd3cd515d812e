use tapsilat::time::{has_char, parse_iso8601, parse_timestamp, parse_unsigned, TimestampFault};

#[test]
fn numbers_of_seconds() {
    assert_eq!(parse_unsigned("0"), Ok(0));
    assert_eq!(parse_unsigned("1700000000"), Ok(1_700_000_000));
    assert_eq!(parse_unsigned("+42"), Ok(42));
    assert_eq!(parse_unsigned("007"), Ok(7));
    assert_eq!(parse_unsigned("18446744073709551615"), Ok(u64::MAX));
    assert_eq!(parse_unsigned("18446744073709551616"), Err(TimestampFault::TooLarge));
    assert_eq!(parse_unsigned("184467440737095516150"), Err(TimestampFault::TooLarge));
    assert_eq!(parse_unsigned(""), Err(TimestampFault::Empty));
    assert_eq!(parse_unsigned("+"), Err(TimestampFault::InvalidDigit));
    assert_eq!(parse_unsigned("-1"), Err(TimestampFault::InvalidDigit));
    assert_eq!(parse_unsigned("12a"), Err(TimestampFault::InvalidDigit));
    assert_eq!(parse_unsigned(" 12"), Err(TimestampFault::InvalidDigit));
    assert_eq!(parse_unsigned("++1"), Err(TimestampFault::InvalidDigit));
    assert_eq!(parse_unsigned("1.5"), Err(TimestampFault::InvalidDigit));
}

#[test]
fn dates_and_times() {
    assert_eq!(parse_iso8601("1970-01-01T00:00:00Z"), Ok(0));
    assert_eq!(parse_iso8601("1970-01-01T00:00:01"), Ok(1));
    assert_eq!(parse_iso8601("2023-01-01T00:00:00Z"), Ok(1_672_531_200));
    assert_eq!(parse_iso8601("2023-12-01T10:30:00Z"), Ok(1_701_426_600));
    assert_eq!(parse_iso8601("2024-02-29T23:59:59Z"), Ok(1_709_251_199));
    assert_eq!(parse_iso8601("2023-01-01T00:00:00.123Z"), Ok(1_672_531_200));
    assert_eq!(parse_iso8601("2023-01-01T00:00:00.999999"), Ok(1_672_531_200));
    assert_eq!(parse_iso8601("2023-01-01T03:00:00+03:00"), Ok(1_672_531_200));
    assert_eq!(parse_iso8601("2022-12-31T19:00:00-05:00"), Ok(1_672_531_200));
    assert_eq!(parse_iso8601("2023-01-01T03:00:00.5+03:00"), Ok(1_672_531_200));
    assert_eq!(parse_iso8601("1969-12-31T23:30:00-01:00"), Ok(1_800));
    assert_eq!(parse_iso8601("9999-12-31T23:59:59Z"), Ok(253_402_300_799));
    assert_eq!(parse_iso8601("1970-03-01T00:00:00Z"), Ok(59 * 86_400));
    assert_eq!(parse_iso8601("1972-03-01T00:00:00Z"), Ok(790 * 86_400));
    assert_eq!(parse_iso8601("2000-01-01T00:00:00Z"), Ok(10_957 * 86_400));
    assert_eq!(parse_iso8601("2000-02-29T00:00:00Z"), Ok(11_016 * 86_400));
    assert_eq!(parse_iso8601("2100-03-01T00:00:00Z"), Ok(47_541 * 86_400));
    assert_eq!(parse_iso8601("2024-12-31T00:00:00Z"), Ok(20_088 * 86_400));
}

#[test]
fn dates_and_times_that_are_none() {
    for text in [
        "",
        "T",
        "2023-01-01",
        "2023-01-01T00:00",
        "2023-01-01 00:00:00",
        "2023-01-01t00:00:00Z",
        "2023/01/01T00:00:00Z",
        "2023-01-01T00:00:00z",
        "2023-01-01T00:00:00.Z",
        "2023-01-01T00:00:00.",
        "2023-01-01T00:00:00+0300",
        "2023-01-01T00:00:00+03",
        "2023-01-01T00:00:00ZZ",
        "2023-01-01T00:00:00 Z",
        "20x3-01-01T00:00:00Z",
        "2023-1-01T00:00:000Z",
    ] {
        assert_eq!(parse_iso8601(text), Err(TimestampFault::NotIso), "{:?}", text);
    }
    for text in [
        "2023-00-01T00:00:00Z",
        "2023-13-01T00:00:00Z",
        "2023-01-00T00:00:00Z",
        "2023-01-32T00:00:00Z",
        "2023-02-29T00:00:00Z",
        "2023-04-31T00:00:00Z",
        "2023-01-01T24:00:00Z",
        "2023-01-01T00:60:00Z",
        "2023-01-01T00:00:60Z",
        "2023-01-01T00:00:00+24:00",
        "2023-01-01T00:00:00-00:60",
    ] {
        assert_eq!(parse_iso8601(text), Err(TimestampFault::OutOfRange), "{:?}", text);
    }
    for text in [
        "1969-12-31T23:59:59Z",
        "1970-01-01T00:00:00+00:01",
        "0000-01-01T00:00:00Z",
        "0001-01-01T00:00:00Z",
    ] {
        assert_eq!(parse_iso8601(text), Err(TimestampFault::BeforeEpoch), "{:?}", text);
    }
}

#[test]
fn time_stamps_of_both_kinds() {
    assert_eq!(parse_timestamp("1672531200"), Ok(1_672_531_200));
    assert_eq!(parse_timestamp("2023-01-01T00:00:00Z"), Ok(1_672_531_200));
    assert_eq!(parse_timestamp("Today"), Err(TimestampFault::NotIso));
    assert_eq!(parse_timestamp("today"), Err(TimestampFault::InvalidDigit));
    assert!(has_char("2023-01-01T00", 'T'));
    assert!(!has_char("2023-01-01", 'T'));
    assert!(!has_char("", 'T'));
}

#[test]
fn faults_in_words() {
    assert_eq!(TimestampFault::Empty.describe(), "cannot parse integer from empty string");
    assert_eq!(TimestampFault::InvalidDigit.describe(), "invalid digit found in string");
    assert_eq!(TimestampFault::TooLarge.describe(), "number too large to fit in target type");
    assert_eq!(TimestampFault::NotIso.describe(), "not an ISO 8601 date and time");
    assert_eq!(TimestampFault::OutOfRange.describe(), "date or time out of range");
    assert_eq!(TimestampFault::BeforeEpoch.describe(), "date before 1970");
}
