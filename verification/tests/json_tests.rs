use gateway::error::AppError;
use gateway::json::balance_body;
use gateway::json::config_missing_body;
use gateway::json::gateway_error_body;
use gateway::json::json_escape;
use gateway::json::payment_error_body;

#[test]
fn config_missing_body_is_the_fixed_shape() {
    assert_eq!(
        config_missing_body().as_str(),
        "{\"error\":{\"message\":\"Server configuration missing. Cannot process request without a configured endpoint.\",\"type\":\"server_error\",\"param\":null,\"code\":\"server_config_missing\"}}"
    );
}

#[test]
fn payment_error_body_carries_the_wallet_detail() {
    assert_eq!(
        payment_error_body("mint down").as_str(),
        "{\"error\":{\"message\":\"Failed to generate payment token: mint down\",\"type\":\"payment_error\"}}"
    );
}

#[test]
fn gateway_error_body_escapes_the_detail() {
    assert_eq!(
        gateway_error_body("said \"no\" \\ twice").as_str(),
        "{\"error\":{\"message\":\"Error forwarding request: said \\\"no\\\" \\\\ twice\",\"type\":\"gateway_error\"}}"
    );
}

#[test]
fn escaping_covers_quotes_backslashes_and_controls() {
    assert_eq!(json_escape("plain").as_str(), "plain");
    assert_eq!(json_escape("a\"b").as_str(), "a\\\"b");
    assert_eq!(json_escape("a\\b").as_str(), "a\\\\b");
    assert_eq!(json_escape("a\nb\rc\td").as_str(), "a\\nb\\rc\\td");
    assert_eq!(json_escape("\u{1}").as_str(), "\\u0001");
    assert_eq!(json_escape("\u{1f}").as_str(), "\\u001f");
    assert_eq!(json_escape("héllo").as_str(), "héllo");
}

#[test]
fn balance_body_quotes_the_number() {
    assert_eq!(balance_body(100).as_str(), "{\"balance\":\"100\"}");
    assert_eq!(balance_body(0).as_str(), "{\"balance\":\"0\"}");
}

#[test]
fn app_errors_answer_with_status_and_body() {
    let e = AppError::NotFound;
    assert_eq!(e.status_code(), 404);
    assert_eq!(e.body_json().as_str(), "{\"error\":\"Resource not found\"}");
    assert_eq!(e.message().as_str(), "Resource not found");

    let e = AppError::Unauthorized;
    assert_eq!(e.status_code(), 401);
    assert_eq!(e.body_json().as_str(), "{\"error\":\"Unauthorized\"}");

    let e = AppError::InternalServerError;
    assert_eq!(e.status_code(), 500);
    assert_eq!(e.message().as_str(), "Internal server error");

    let e = AppError::ValidationError("bad \"field\"".to_string());
    assert_eq!(e.status_code(), 400);
    assert_eq!(e.message().as_str(), "Validation error: bad \"field\"");
    assert_eq!(e.body_json().as_str(), "{\"error\":\"bad \\\"field\\\"\"}");
}
