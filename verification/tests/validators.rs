use tapsilat::{Amount, Config, TapsilatClient, TapsilatError, Validators};

fn amount(value: f64) -> Amount {
    Amount::parse(&format!("{:.10}", value)).expect("a decimal within range")
}

fn validation_message(result: Result<(), TapsilatError>) -> String {
    match result {
        Err(TapsilatError::ValidationError(message)) => message,
        other => panic!("expected a validation error, got {:?}", other),
    }
}

fn gsm_message(input: &str) -> String {
    match Validators::validate_gsm(input) {
        Err(TapsilatError::ValidationError(message)) => message,
        other => panic!("expected a validation error, got {:?}", other),
    }
}

#[test]
fn test_gsm_validation() {
    assert!(Validators::validate_gsm("+905551234567").is_ok());
    assert!(Validators::validate_gsm("905551234567").is_ok());
    assert!(Validators::validate_gsm("05551234567").is_ok());
    assert!(Validators::validate_gsm("5551234567").is_ok());

    assert!(Validators::validate_gsm("123456789").is_err());
    assert!(Validators::validate_gsm("4551234567").is_err());
}

#[test]
fn test_installment_validation() {
    assert!(Validators::validate_installments(1).is_ok());
    assert!(Validators::validate_installments(12).is_ok());
    assert!(Validators::validate_installments(13).is_err());
    assert!(Validators::validate_installments(0).is_err());
}

#[test]
fn test_email_validation() {
    assert!(Validators::validate_email("test@example.com").is_ok());
    assert!(Validators::validate_email("invalid-email").is_err());
    assert!(Validators::validate_email("@invalid.com").is_err());
}

#[test]
fn test_amount_validation() {
    assert!(Validators::validate_amount(amount(10.50)).is_ok());
    assert!(Validators::validate_amount(amount(0.01)).is_ok());
    assert!(Validators::validate_amount(amount(-5.0)).is_err());
    assert!(Validators::validate_amount(amount(0.0)).is_err());
    assert!(Validators::validate_amount(amount(10.555)).is_err());
}

#[test]
fn test_validators() {
    assert!(Validators::validate_gsm("5551234567").is_ok());
    assert!(Validators::validate_gsm("05551234567").is_ok());
    assert!(Validators::validate_gsm("+905551234567").is_ok());
    assert!(Validators::validate_gsm("4551234567").is_err());

    assert!(Validators::validate_email("test@example.com").is_ok());
    assert!(Validators::validate_email("invalid-email").is_err());

    assert!(Validators::validate_amount(amount(10.50)).is_ok());
    assert!(Validators::validate_amount(amount(-5.0)).is_err());
    assert!(Validators::validate_amount(amount(0.0)).is_err());

    assert!(Validators::validate_installments(1).is_ok());
    assert!(Validators::validate_installments(12).is_ok());
    assert!(Validators::validate_installments(0).is_err());
    assert!(Validators::validate_installments(13).is_err());
}

fn get_test_client(api_key: &str) -> TapsilatClient {
    let config =
        Config::new(api_key).with_base_url("https://api-sandbox.tapsilat.com").with_timeout(30);

    TapsilatClient::new(config).expect("Failed to create test client")
}

#[test]
fn test_real_api_client_creation() {
    let _client = get_test_client("test-api-key");

    assert!(Validators::validate_gsm("5551234567").is_ok());
    assert!(Validators::validate_email("test@tapsilat.com").is_ok());
    assert!(Validators::validate_amount(amount(99.99)).is_ok());
}

#[test]
fn gsm_numbers_come_out_in_canonical_form() {
    for input in ["5551234567", "05551234567", "905551234567", "+905551234567"] {
        assert_eq!(Validators::validate_gsm(input).unwrap(), "905551234567");
    }
    assert_eq!(Validators::validate_gsm_number("5551234567").unwrap(), "905551234567");
}

#[test]
fn gsm_numbers_lose_spaces_and_hyphens() {
    assert_eq!(Validators::validate_gsm("  +90 555 123-45-67 ").unwrap(), "905551234567");
    assert_eq!(Validators::validate_gsm("\t0555-123-4567\n").unwrap(), "905551234567");
    assert_eq!(Validators::validate_gsm("\u{a0}5551234567\u{2003}").unwrap(), "905551234567");
    // White space goes wherever it stands, whatever its kind.
    assert_eq!(Validators::validate_gsm("555\t123\t4567").unwrap(), "905551234567");
    assert_eq!(Validators::validate_gsm("+ 9 0\n555\u{a0}123\u{3000}4567").unwrap(), "905551234567");
    assert_eq!(Validators::validate_gsm("0-555-\r\n123-4567").unwrap(), "905551234567");
}

#[test]
fn gsm_faults_are_named() {
    assert_eq!(gsm_message("123456789"), "GSM number must be 10 digits long");
    assert_eq!(gsm_message(""), "GSM number must be 10 digits long");
    assert_eq!(gsm_message("55512345678"), "GSM number must be 10 digits long");
    assert_eq!(gsm_message("4551234567"), "Turkish mobile numbers must start with 5");
    assert_eq!(gsm_message("555123456x"), "GSM number must contain only digits");
    // White space is dropped before the length is looked at.
    assert_eq!(gsm_message("555\t234567"), "GSM number must be 10 digits long");
    assert_eq!(gsm_message(" \t\n"), "GSM number must be 10 digits long");
    // A zero-width space is no white space: it stays and is no digit.
    assert_eq!(gsm_message("5551234\u{200b}"), "GSM number must contain only digits");
    // Ten bytes, nine characters: the length is counted in bytes.
    assert_eq!(gsm_message("55512345\u{e9}"), "GSM number must contain only digits");
    // A country code is taken off before the length is looked at.
    assert_eq!(gsm_message("9055512345"), "GSM number must be 10 digits long");
}

#[test]
fn installment_counts_from_one_to_twelve() {
    for count in 1..=12u8 {
        assert!(Validators::validate_installments(count).is_ok());
    }
    for count in [0u8, 13, 14, 100, 255] {
        let message = validation_message(Validators::validate_installments(count));
        assert_eq!(
            message,
            format!("Invalid installment count: {}. Valid values are 1-12", count)
        );
    }
}

#[test]
fn email_shapes() {
    for good in ["a@b.c", "first.last@example.co.uk", "x+tag@sub.domain.org"] {
        assert!(Validators::validate_email(good).is_ok(), "{}", good);
    }
    for bad in ["", "plain", "a@b", "a b@c.d", "a@b .c", "a@@b.c", "a@b.", "@b.c", "a@.c "] {
        assert_eq!(
            validation_message(Validators::validate_email(bad)),
            "Invalid email format",
            "{}",
            bad
        );
    }
}

#[test]
fn email_verdict_for_each_outcome() {
    assert!(Validators::email_verdict(Ok(true)).is_ok());
    assert_eq!(
        validation_message(Validators::email_verdict(Ok(false))),
        "Invalid email format"
    );
    assert_eq!(
        validation_message(Validators::email_verdict(Err("unclosed group".to_string()))),
        "Email regex error: unclosed group"
    );
}

#[test]
fn identity_numbers_with_matching_checksums() {
    for good in ["10000000146", "12345678950", "19090909018"] {
        assert!(Validators::validate_identity_number(good).is_ok(), "{}", good);
    }
}

#[test]
fn identity_numbers_are_taken_as_given() {
    let message = |input: &str| validation_message(Validators::validate_identity_number(input));
    assert_eq!(message(" 10000000146"), "Identity number must be 11 digits");
    assert_eq!(message("10000000146 "), "Identity number must be 11 digits");
    assert_eq!(message(" 10000000146 "), "Identity number must be 11 digits");
    assert_eq!(message("\t10000000146\n"), "Identity number must be 11 digits");
    assert_eq!(message(" 1000000014"), "Identity number must contain only digits");
    assert_eq!(message("1000000014 "), "Identity number must contain only digits");
}

#[test]
fn identity_faults_are_named() {
    let message = |input: &str| validation_message(Validators::validate_identity_number(input));
    assert_eq!(message("1000000014"), "Identity number must be 11 digits");
    assert_eq!(message("100000001466"), "Identity number must be 11 digits");
    assert_eq!(message(""), "Identity number must be 11 digits");
    assert_eq!(message("1000000014x"), "Identity number must contain only digits");
    assert_eq!(message("100 0000146"), "Identity number must contain only digits");
    assert_eq!(message("00000000000"), "Identity number cannot start with 0");
    assert_eq!(message("11111111111"), "Invalid identity number checksum");
    assert_eq!(message("10000000156"), "Invalid identity number checksum");
    assert_eq!(message("10000000147"), "Invalid identity number checksum");
}

#[test]
fn identity_checksum_with_a_difference_below_zero() {
    // The digits at the second, fourth, sixth and eighth place outweigh
    // seven times the others: 7 * 1 - 36 is -29, and the tenth digit is 1.
    assert!(Validators::validate_identity_number("19090909018").is_ok());
}

#[test]
fn identity_number_fails_after_any_change_of_one_digit() {
    let valid = "10000000146";
    assert!(Validators::validate_identity_number(valid).is_ok());
    for position in 0..11 {
        for digit in b'0'..=b'9' {
            let mut bytes = valid.as_bytes().to_vec();
            if bytes[position] == digit {
                continue;
            }
            bytes[position] = digit;
            let changed = String::from_utf8(bytes).unwrap();
            assert!(
                Validators::validate_identity_number(&changed).is_err(),
                "{} should not be accepted",
                changed
            );
        }
    }
}

#[test]
fn amount_faults_are_named() {
    assert_eq!(
        validation_message(Validators::validate_amount(amount(0.0))),
        "Amount must be greater than 0"
    );
    assert_eq!(
        validation_message(Validators::validate_amount(amount(-0.01))),
        "Amount must be greater than 0"
    );
    assert_eq!(
        validation_message(Validators::validate_amount(amount(10.555))),
        "Amount cannot have more than 2 decimal places"
    );
    assert_eq!(
        validation_message(Validators::validate_amount(Amount::from_units(1))),
        "Amount cannot have more than 2 decimal places"
    );
    assert!(Validators::validate_amount(Amount::from_cents(1)).is_ok());
    assert!(Validators::validate_amount(amount(1000000.0)).is_ok());
}
