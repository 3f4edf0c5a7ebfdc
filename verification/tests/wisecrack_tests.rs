use led_glyph::wisecrack::{
    joke_from_response, printer_message, quote_from_response, transport_error_data, Data,
};

#[test]
fn joke_success_response_carries_the_joke_and_its_status() {
    let body = String::from(
        "{\"id\":\"Dt4hNJJmykb\",\"joke\":\"Mocked joke for testing.\",\"status\":201}",
    );
    let data = joke_from_response(201, body);
    assert_eq!(data.response_code, 201);
    assert_eq!(data.data.as_deref(), Some("Mocked joke for testing."));
    assert!(data.error_message.is_none());
}

#[test]
fn joke_error_response_reports_code_and_body() {
    let body = String::from("{\"message\": \"Internal Server Error\"}");
    let data = joke_from_response(500, body);
    assert_eq!(data.response_code, 500);
    assert!(data.data.is_none());
    let err = data.error_message.unwrap();
    assert_eq!(
        err,
        "HTTP error 500: {\"message\": \"Internal Server Error\"}"
    );
}

#[test]
fn joke_success_with_unreadable_body_reports_a_parse_problem() {
    let data = joke_from_response(200, String::from("not json at all"));
    assert!(data.data.is_none());
    assert!(data.error_message.is_some());
    assert_eq!(data.response_code, 500);
}

#[test]
fn quote_success_response_carries_the_first_quote() {
    let body = String::from(
        "[{\"a\":\"Some Author\",\"q\":\"Mocked quote for testing.\",\"h\":\"Some more text\"}]",
    );
    let data = quote_from_response(200, body);
    assert_eq!(data.response_code, 200);
    assert_eq!(data.data.as_deref(), Some("Mocked quote for testing."));
    assert!(data.error_message.is_none());
}

#[test]
fn quote_error_response_reports_code_and_body() {
    let body = String::from("{\"message\": \"Internal Server Error\"}");
    let data = quote_from_response(500, body);
    assert_eq!(data.response_code, 500);
    assert!(data.data.is_none());
    let err = data.error_message.unwrap();
    assert!(err.contains("500") && err.contains("Internal Server Error"));
}

#[test]
fn quote_success_with_no_quotes_is_an_error_not_a_crash() {
    let data = quote_from_response(200, String::from("[]"));
    assert!(data.data.is_none());
    assert!(data.error_message.is_some());
    assert_eq!(data.response_code, 500);
}

#[test]
fn transport_errors_use_the_fallback_code() {
    let data = transport_error_data(String::from("connection refused"));
    assert!(data.data.is_none());
    assert_eq!(data.error_message.as_deref(), Some("connection refused"));
    assert_eq!(data.response_code, 500);
}

#[test]
fn printer_message_prefers_the_error_message() {
    let data = Data::new(
        Some(String::from("Some Data Message")),
        None,
        201,
    );
    assert_eq!(printer_message(&data), "Some Data Message");
    let error_data = Data::new(None, Some(String::from("Some Error Message")), 500);
    assert_eq!(printer_message(&error_data), "Some Error Message");
}
