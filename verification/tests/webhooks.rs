use tapsilat::modules::webhooks::{same_in_fixed_time, to_hex};
use tapsilat::{
    TapsilatError, WebhookData, WebhookEvent, WebhookEventType, WebhookModule,
    WebhookVerificationConfig,
};

const PAYLOAD: &str = r#"{"event_type": "order.completed", "data": {"order_id": "order_123", "amount": 100.0, "currency": "TRY", "status": "completed"}, "timestamp": "2023-01-01T00:00:00Z"}"#;

fn event(event_type: WebhookEventType, timestamp: &str) -> WebhookEvent {
    WebhookEvent {
        event_type,
        data: WebhookData {
            order_id: Some("order_123".to_string()),
            payment_id: None,
            installment_id: None,
            amount: tapsilat::Amount::parse("100.0"),
            currency: Some("TRY".to_string()),
            status: Some("completed".to_string()),
            metadata: None,
        },
        timestamp: timestamp.to_string(),
        signature: None,
    }
}

fn config(secret: &str, tolerance: Option<u64>) -> WebhookVerificationConfig {
    WebhookModule::create_verification_config(secret.to_string(), tolerance)
}

#[test]
fn test_webhook_verification_config() {
    let config = WebhookModule::create_verification_config("test_secret".to_string(), Some(300));

    assert_eq!(config.secret, "test_secret");
    assert_eq!(config.tolerance_seconds, Some(300));
}

#[test]
fn event_names_form_a_closed_list() {
    let names = [
        ("order.completed", WebhookEventType::OrderCompleted),
        ("order.failed", WebhookEventType::OrderFailed),
        ("order.cancelled", WebhookEventType::OrderCancelled),
        ("order.refunded", WebhookEventType::OrderRefunded),
        ("payment.completed", WebhookEventType::PaymentCompleted),
        ("payment.failed", WebhookEventType::PaymentFailed),
        ("installment.completed", WebhookEventType::InstallmentCompleted),
        ("installment.failed", WebhookEventType::InstallmentFailed),
    ];
    for (name, kind) in names {
        assert_eq!(WebhookEventType::from_name(name), Some(kind));
        assert_eq!(kind.name(), name);
    }
    for name in ["", "order.created", "ORDER.COMPLETED", "order.completed ", "order"] {
        assert_eq!(WebhookEventType::from_name(name), None);
    }
}

#[test]
fn event_type_of_a_payload() {
    let payload = r#"{
            "event_type": "order.completed",
            "data": {
                "order_id": "order_123",
                "amount": 100.0,
                "currency": "TRY",
                "status": "completed"
            },
            "timestamp": "2023-01-01T00:00:00Z"
        }"#;

    let value: serde_json::Value = serde_json::from_str(payload).unwrap();
    let name = value["event_type"].as_str().unwrap();
    let webhook = event(
        WebhookEventType::from_name(name).expect("a known event"),
        value["timestamp"].as_str().unwrap(),
    );
    assert!(matches!(webhook.event_type, WebhookEventType::OrderCompleted));
    assert_eq!(webhook.timestamp, "2023-01-01T00:00:00Z");
}

#[test]
fn signature_is_the_hmac_sha256_code_in_hex() {
    assert_eq!(
        WebhookModule::create_signature("The quick brown fox jumps over the lazy dog", "key"),
        "f7bc83f430538424b13298e6aa6fb143ef4d59a14946175997479dbc2d1a3cd8"
    );
    assert_eq!(
        WebhookModule::create_signature("", ""),
        "b613679a0814d9ec772f95d778c35fc5ff1697c493715653c6c712144292c5ad"
    );
}

#[test]
fn hex_digits_of_bytes() {
    let digits: String = to_hex(&vec![0x00, 0x0f, 0xa5, 0xff, 0x10]).into_iter().collect();
    assert_eq!(digits, "000fa5ff10");
    assert!(to_hex(&Vec::new()).is_empty());
}

#[test]
fn comparison_in_fixed_time() {
    let chars = |s: &str| s.chars().collect::<Vec<char>>();
    assert!(same_in_fixed_time(&chars("abc"), &chars("abc")));
    assert!(same_in_fixed_time(&chars(""), &chars("")));
    assert!(!same_in_fixed_time(&chars("abc"), &chars("abd")));
    assert!(!same_in_fixed_time(&chars("abc"), &chars("xbc")));
    assert!(!same_in_fixed_time(&chars("abc"), &chars("ab")));
    assert!(!same_in_fixed_time(&chars("ab"), &chars("abc")));
    assert!(!same_in_fixed_time(&chars("a\u{100}"), &chars("a\u{200}")));
}

#[test]
fn signature_with_prefix_or_without() {
    let signature = WebhookModule::create_signature(PAYLOAD, "test_secret");
    assert!(WebhookModule::verify_signature(PAYLOAD, &signature, "test_secret"));
    assert!(WebhookModule::verify_signature(
        PAYLOAD,
        &format!("sha256={}", signature),
        "test_secret"
    ));
    assert!(!WebhookModule::verify_signature(PAYLOAD, &signature, "other_secret"));
    assert!(!WebhookModule::verify_signature(PAYLOAD, &signature.to_uppercase(), "test_secret"));
    assert!(!WebhookModule::verify_signature(PAYLOAD, "", "test_secret"));
    assert!(!WebhookModule::verify_signature(PAYLOAD, "sha256=", "test_secret"));
    assert!(!WebhookModule::verify_signature(
        PAYLOAD,
        &format!("sha1={}", signature),
        "test_secret"
    ));
}

#[test]
fn signature_against_a_given_code() {
    let code = vec![0xde, 0xad, 0xbe, 0xef];
    assert!(WebhookModule::signature_matches("deadbeef", &code));
    assert!(WebhookModule::signature_matches("sha256=deadbeef", &code));
    assert!(!WebhookModule::signature_matches("DEADBEEF", &code));
    assert!(!WebhookModule::signature_matches("deadbeee", &code));
    assert!(!WebhookModule::signature_matches("sha256=sha256=deadbeef", &code));
}

#[test]
fn webhook_round_trip() {
    let parsed = Ok(event(WebhookEventType::OrderCompleted, "2023-01-01T00:00:00Z"));
    let signature = WebhookModule::create_signature(PAYLOAD, "test_secret");

    let result = WebhookModule::verify_webhook(
        PAYLOAD,
        &signature,
        &config("test_secret", None),
        &parsed,
        &Ok(1_700_000_000),
    );
    assert!(result.is_valid);
    assert_eq!(result.error, None);

    let altered = PAYLOAD.replace("100.0", "999.0");
    let result = WebhookModule::verify_webhook(
        &altered,
        &signature,
        &config("test_secret", None),
        &parsed,
        &Ok(1_700_000_000),
    );
    assert!(!result.is_valid);
    assert_eq!(result.error, Some("Invalid signature".to_string()));
}

#[test]
fn webhook_within_tolerance() {
    // 2023-01-01T00:00:00Z is 1672531200 seconds after the start of 1970.
    let parsed = Ok(event(WebhookEventType::OrderCompleted, "2023-01-01T00:00:00Z"));
    let signature = WebhookModule::create_signature(PAYLOAD, "s");
    for now in [1_672_531_200u64, 1_672_531_500, 1_672_530_900] {
        let result =
            WebhookModule::verify_webhook(PAYLOAD, &signature, &config("s", Some(300)), &parsed, &Ok(now));
        assert!(result.is_valid, "{}", now);
    }
}

#[test]
fn webhook_out_of_tolerance() {
    let parsed = Ok(event(WebhookEventType::OrderCompleted, "2023-01-01T00:00:00Z"));
    let signature = WebhookModule::create_signature(PAYLOAD, "s");
    let result = WebhookModule::verify_webhook(
        PAYLOAD,
        &signature,
        &config("s", Some(300)),
        &parsed,
        &Ok(1_672_531_501),
    );
    assert!(!result.is_valid);
    assert_eq!(
        result.error,
        Some(
            "Timestamp validation failed: Invalid response: Webhook timestamp too old or too far \
             in future. Difference: 301s, tolerance: 300s"
                .to_string()
        )
    );
    let result = WebhookModule::verify_webhook(
        PAYLOAD,
        &signature,
        &config("s", Some(0)),
        &parsed,
        &Ok(1_672_531_199),
    );
    assert!(!result.is_valid);
}

#[test]
fn webhook_with_a_time_stamp_that_cannot_be_read() {
    let parsed = Ok(event(WebhookEventType::PaymentFailed, "yesterday"));
    let signature = WebhookModule::create_signature(PAYLOAD, "s");
    let result =
        WebhookModule::verify_webhook(PAYLOAD, &signature, &config("s", Some(300)), &parsed, &Ok(0));
    assert!(!result.is_valid);
    assert_eq!(
        result.error,
        Some(
            "Timestamp validation failed: Invalid response: Invalid timestamp format: invalid \
             digit found in string"
                .to_string()
        )
    );
    // Without a tolerance the time stamp is not looked at.
    let result = WebhookModule::verify_webhook(PAYLOAD, &signature, &config("s", None), &parsed, &Ok(0));
    assert!(result.is_valid);
}

#[test]
fn webhook_that_cannot_be_read() {
    let parsed: Result<WebhookEvent, String> =
        Err("unknown variant `order.created`".to_string());
    let signature = WebhookModule::create_signature(PAYLOAD, "s");
    let result =
        WebhookModule::verify_webhook(PAYLOAD, &signature, &config("s", Some(300)), &parsed, &Ok(0));
    assert!(!result.is_valid);
    assert_eq!(
        result.error,
        Some("Invalid webhook payload: unknown variant `order.created`".to_string())
    );
}

#[test]
fn webhook_without_a_clock() {
    let parsed = Ok(event(WebhookEventType::OrderCompleted, "2023-01-01T00:00:00Z"));
    let signature = WebhookModule::create_signature(PAYLOAD, "s");
    let stopped: Result<u64, String> = Err("second time provided was later than self".to_string());
    let result =
        WebhookModule::verify_webhook(PAYLOAD, &signature, &config("s", Some(300)), &parsed, &stopped);
    assert!(!result.is_valid);
    assert_eq!(
        result.error,
        Some(
            "Timestamp validation failed: Invalid response: System time error: second time \
             provided was later than self"
                .to_string()
        )
    );
    // The signature needs no clock.
    let result =
        WebhookModule::verify_webhook(PAYLOAD, &signature, &config("s", None), &parsed, &stopped);
    assert!(result.is_valid);
    // A time stamp that cannot be read is reported before the clock.
    let unreadable = Ok(event(WebhookEventType::OrderCompleted, "soon"));
    let result = WebhookModule::verify_webhook(
        PAYLOAD,
        &signature,
        &config("s", Some(300)),
        &unreadable,
        &stopped,
    );
    assert_eq!(
        result.error,
        Some(
            "Timestamp validation failed: Invalid response: Invalid timestamp format: invalid \
             digit found in string"
                .to_string()
        )
    );
    match WebhookModule::verify_timestamp("1700000000", 300, &stopped) {
        Err(TapsilatError::InvalidResponse(m)) => {
            assert_eq!(m, "System time error: second time provided was later than self")
        }
        other => panic!("{:?}", other),
    }
}

#[test]
fn time_stamp_check_alone() {
    assert!(WebhookModule::verify_timestamp("1700000000", 300, &Ok(1_700_000_100)).is_ok());
    assert!(WebhookModule::verify_timestamp("1700000000", 300, &Ok(1_699_999_700)).is_ok());
    assert!(WebhookModule::verify_timestamp("+1700000000", 0, &Ok(1_700_000_000)).is_ok());
    match WebhookModule::verify_timestamp("1700000000", 300, &Ok(1_700_000_400)) {
        Err(TapsilatError::InvalidResponse(m)) => assert_eq!(
            m,
            "Webhook timestamp too old or too far in future. Difference: 400s, tolerance: 300s"
        ),
        other => panic!("{:?}", other),
    }
    match WebhookModule::verify_timestamp("", 300, &Ok(0)) {
        Err(TapsilatError::InvalidResponse(m)) => {
            assert_eq!(m, "Invalid timestamp format: cannot parse integer from empty string")
        }
        other => panic!("{:?}", other),
    }
    match WebhookModule::verify_timestamp("99999999999999999999", 300, &Ok(0)) {
        Err(TapsilatError::InvalidResponse(m)) => {
            assert_eq!(m, "Invalid timestamp format: number too large to fit in target type")
        }
        other => panic!("{:?}", other),
    }
    match WebhookModule::verify_timestamp("2023-01-01T00:00", 300, &Ok(0)) {
        Err(TapsilatError::InvalidResponse(m)) => {
            assert_eq!(m, "Invalid timestamp format: not an ISO 8601 date and time")
        }
        other => panic!("{:?}", other),
    }
}

#[test]
fn iso_time_stamp_as_seconds() {
    assert_eq!(WebhookModule::parse_iso8601_timestamp("2023-01-01T00:00:00Z").unwrap(), 1_672_531_200);
    match WebhookModule::parse_iso8601_timestamp("2023-02-30T00:00:00Z") {
        Err(TapsilatError::InvalidResponse(m)) => {
            assert_eq!(m, "Invalid timestamp format: date or time out of range")
        }
        other => panic!("{:?}", other),
    }
}

#[test]
fn payload_that_is_no_notification() {
    match WebhookModule::parse_failure("missing field `timestamp`") {
        TapsilatError::InvalidResponse(m) => {
            assert_eq!(m, "Failed to parse webhook payload: missing field `timestamp`")
        }
        other => panic!("{:?}", other),
    }
}
