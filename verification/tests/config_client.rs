use tapsilat::client::{RequestBody, USER_AGENT};
use tapsilat::{Config, HttpMethod, TapsilatClient, TapsilatError};

fn client_for(base_url: &str) -> TapsilatClient {
    TapsilatClient::new(Config::new("test-api-key").with_base_url(base_url)).unwrap()
}

fn header(request: &tapsilat::HttpRequest, name: &str) -> String {
    request
        .headers
        .iter()
        .find(|h| h.name == name)
        .map(|h| h.value.clone())
        .expect("the header is there")
}

#[test]
fn lib_test_client_creation() {
    let config = Config::new("test-api-key");
    let client = TapsilatClient::new(config);
    assert!(client.is_ok());
}

#[test]
fn lib_test_config_validation() {
    let config = Config::new("");
    assert!(config.validate().is_err());
}

#[test]
fn integration_tests_test_client_creation() {
    let client = TapsilatClient::from_api_key("test-api-key");
    assert!(client.is_ok());
}

#[test]
fn integration_tests_test_config_validation() {
    let config = Config::new("test-key");
    assert!(config.validate().is_ok());

    let empty_config = Config::new("");
    assert!(empty_config.validate().is_err());
}

#[test]
fn config_starts_with_the_defaults() {
    let config = Config::new("key");
    assert_eq!(config.api_key, "key");
    assert_eq!(config.base_url, "https://panel.tapsilat.dev/api/v1");
    assert_eq!(config.timeout, 30);
}

#[test]
fn config_builders_change_one_setting() {
    let config = Config::new("key").with_base_url("https://example.test/v2").with_timeout(60);
    assert_eq!(config.api_key, "key");
    assert_eq!(config.base_url, "https://example.test/v2");
    assert_eq!(config.timeout, 60);
    let copy = config.clone();
    assert_eq!(copy.api_key, "key");
    assert_eq!(copy.base_url, "https://example.test/v2");
    assert_eq!(copy.timeout, 60);
}

#[test]
fn config_faults_are_named() {
    match Config::new("").validate() {
        Err(TapsilatError::ConfigError(m)) => assert_eq!(m, "API key cannot be empty"),
        other => panic!("{:?}", other),
    }
    match Config::new("key").with_base_url("").validate() {
        Err(TapsilatError::ConfigError(m)) => assert_eq!(m, "Base URL cannot be empty"),
        other => panic!("{:?}", other),
    }
    match Config::new("").with_base_url("").validate() {
        Err(TapsilatError::ConfigError(m)) => assert_eq!(m, "API key cannot be empty"),
        other => panic!("{:?}", other),
    }
    assert!(TapsilatClient::from_api_key("").is_err());
    assert!(TapsilatClient::new(Config::new("key").with_base_url("")).is_err());
}

#[test]
fn client_keeps_its_configuration() {
    let client = client_for("https://example.test");
    assert_eq!(client.config().api_key, "test-api-key");
    assert_eq!(client.config().base_url, "https://example.test");
    assert_eq!(client.clone().config().timeout, 30);
    assert_eq!(client.orders().client().config().api_key, "test-api-key");
    assert_eq!(client.payments().client().config().api_key, "test-api-key");
    assert_eq!(client.installments().client().config().api_key, "test-api-key");
    assert_eq!(client.subscriptions().client().config().api_key, "test-api-key");
}

#[test]
fn url_is_joined_with_one_slash() {
    assert_eq!(client_for("https://h/api").url_for("health"), "https://h/api/health");
    assert_eq!(client_for("https://h/api/").url_for("/health"), "https://h/api/health");
    assert_eq!(client_for("https://h/api///").url_for("///a/b/"), "https://h/api/a/b/");
    assert_eq!(client_for("/").url_for(""), "/");
}

#[test]
fn method_names_in_any_case() {
    assert_eq!(HttpMethod::from_name("get"), Some(HttpMethod::Get));
    assert_eq!(HttpMethod::from_name("Post"), Some(HttpMethod::Post));
    assert_eq!(HttpMethod::from_name("PUT"), Some(HttpMethod::Put));
    assert_eq!(HttpMethod::from_name("dElEtE"), Some(HttpMethod::Delete));
    assert_eq!(HttpMethod::from_name("PATCH"), None);
    assert_eq!(HttpMethod::from_name(""), None);
    assert_eq!(HttpMethod::parse("GET"), Some(HttpMethod::Get));
    assert_eq!(HttpMethod::parse("get"), None);
    for method in [HttpMethod::Get, HttpMethod::Post, HttpMethod::Put, HttpMethod::Delete] {
        assert_eq!(HttpMethod::parse(method.name()), Some(method));
    }
}

#[test]
fn request_carries_the_three_headers() {
    let client = client_for("https://h/api");
    let request = client.prepare_request("GET", "order/1", false).unwrap();
    assert_eq!(request.method, HttpMethod::Get);
    assert_eq!(request.url, "https://h/api/order/1");
    assert_eq!(request.headers.len(), 3);
    assert_eq!(header(&request, "Authorization"), "Bearer test-api-key");
    assert_eq!(header(&request, "Content-Type"), "application/json");
    assert_eq!(header(&request, "User-Agent"), USER_AGENT);
    assert_eq!(USER_AGENT, "tapsilat-rust/0.1.0");
}

#[test]
fn body_depends_on_method_and_payload() {
    let client = client_for("https://h");
    let body = |method: &str, payload: bool| {
        client.prepare_request(method, "x", payload).unwrap().body
    };
    assert_eq!(body("GET", false), RequestBody::Absent);
    assert_eq!(body("GET", true), RequestBody::Absent);
    assert_eq!(body("delete", true), RequestBody::Absent);
    assert_eq!(body("POST", true), RequestBody::Json);
    assert_eq!(body("POST", false), RequestBody::Empty);
    assert_eq!(body("put", true), RequestBody::Json);
    assert_eq!(body("put", false), RequestBody::Empty);
}

#[test]
fn unknown_method_is_refused() {
    match client_for("https://h").prepare_request("patch", "x", false) {
        Err(TapsilatError::ConfigError(m)) => assert_eq!(m, "Unsupported HTTP method: patch"),
        other => panic!("{:?}", other),
    }
}

#[test]
fn failing_status_carries_the_message_of_the_body() {
    let body = r#"{"success": false, "message": "Invalid API key", "errors": ["Authentication failed"]}"#;
    match TapsilatClient::read_response(401, Ok(body.to_string())) {
        Err(TapsilatError::ApiError { status_code, message }) => {
            assert_eq!(status_code, 401);
            assert_eq!(message, "Invalid API key");
        }
        other => panic!("{:?}", other),
    }
}

#[test]
fn failing_status_without_message() {
    for body in ["", "not json", "[1, 2]", r#"{"message": 5}"#, r#"{"error": "x"}"#, "null"] {
        match TapsilatClient::read_response(500, Ok(body.to_string())) {
            Err(TapsilatError::ApiError { status_code, message }) => {
                assert_eq!(status_code, 500);
                assert_eq!(message, "Unknown API error", "{}", body);
            }
            other => panic!("{:?}", other),
        }
    }
    match TapsilatClient::read_response(400, Err("connection reset".to_string())) {
        Err(TapsilatError::ApiError { status_code, message }) => {
            assert_eq!(status_code, 400);
            assert_eq!(message, "Unknown API error");
        }
        other => panic!("{:?}", other),
    }
}

#[test]
fn status_below_400_is_no_failure() {
    let value = TapsilatClient::read_response(399, Ok(r#"{"message": "fine"}"#.to_string())).unwrap();
    assert_eq!(value["message"], serde_json::Value::String("fine".to_string()));
}

#[test]
fn blank_body_stands_for_null() {
    for body in ["", " ", "\n\t  \r\n"] {
        let value = TapsilatClient::read_response(200, Ok(body.to_string())).unwrap();
        assert_eq!(value, serde_json::Value::Null, "{:?}", body);
    }
}

#[test]
fn body_is_read_as_json() {
    let value =
        TapsilatClient::read_response(201, Ok(r#" {"order_id": "order_123", "n": [1, 2]} "#.to_string()))
            .unwrap();
    assert_eq!(value["order_id"], serde_json::Value::String("order_123".to_string()));
    assert_eq!(value["n"][1], serde_json::Value::from(2));
}

#[test]
fn body_that_is_no_json_is_reported_with_its_text() {
    match TapsilatClient::read_response(200, Ok("<html>".to_string())) {
        Err(TapsilatError::ConfigError(m)) => {
            assert!(m.starts_with("Failed to parse response JSON: "), "{}", m);
            assert!(m.ends_with(". Response was: <html>"), "{}", m);
            assert!(m.len() > "Failed to parse response JSON: . Response was: <html>".len());
        }
        other => panic!("{:?}", other),
    }
}

#[test]
fn body_that_cannot_be_read_is_reported() {
    match TapsilatClient::read_response(200, Err("timed out".to_string())) {
        Err(TapsilatError::ConfigError(m)) => {
            assert_eq!(m, "Failed to read response body: timed out")
        }
        other => panic!("{:?}", other),
    }
}

#[test]
fn failures_made_from_their_parts() {
    match TapsilatClient::failure_for(404, Some("Order not found".to_string())) {
        TapsilatError::ApiError { status_code, message } => {
            assert_eq!(status_code, 404);
            assert_eq!(message, "Order not found");
        }
        other => panic!("{:?}", other),
    }
    match TapsilatClient::failure_for(404, None) {
        TapsilatError::ApiError { message, .. } => assert_eq!(message, "Unknown API error"),
        other => panic!("{:?}", other),
    }
    match TapsilatClient::parse_failure("expected value", "oops") {
        TapsilatError::ConfigError(m) => {
            assert_eq!(m, "Failed to parse response JSON: expected value. Response was: oops")
        }
        other => panic!("{:?}", other),
    }
}

#[test]
fn errors_in_words() {
    assert_eq!(TapsilatError::Http("timeout".to_string()).to_text(), "HTTP error: timeout");
    assert_eq!(
        TapsilatError::Serialization("broken pipe".to_string()).to_text(),
        "Serialization error: broken pipe"
    );
    assert_eq!(
        TapsilatError::InvalidResponse("No data".to_string()).to_text(),
        "Invalid response: No data"
    );
    assert_eq!(
        TapsilatError::ApiError { status_code: 401, message: "Invalid API key".to_string() }.to_text(),
        "API error (401): Invalid API key"
    );
    assert_eq!(
        TapsilatError::ApiError { status_code: 0, message: String::new() }.to_text(),
        "API error (0): "
    );
    assert_eq!(
        TapsilatError::ConfigError("API key cannot be empty".to_string()).to_text(),
        "Configuration error: API key cannot be empty"
    );
    assert_eq!(
        TapsilatError::ValidationError("Invalid email format".to_string()).to_text(),
        "Validation error: Invalid email format"
    );
    assert_eq!(TapsilatError::validation("x").to_text(), "Validation error: x");
    assert_eq!(TapsilatError::config("x").to_text(), "Configuration error: x");
    assert_eq!(TapsilatError::invalid_response("x").to_text(), "Invalid response: x");
}
