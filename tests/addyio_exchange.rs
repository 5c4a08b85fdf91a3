use addyio::description::format_description;
use addyio::error::{decimal, GeneratorError};
use addyio::request::{alias_endpoint, bearer_value, build_request, AliasRequest, OutboundRequest};
use addyio::response::{alias_from_decoded, check_status};

const BASE_URL: &str = "http://127.0.0.1:3000";
const EMAIL: &str = "50c9e585-e7f5-41c4-9016-9014c15454bc@myemail.com";

fn outbound(token: &str, domain: &str) -> OutboundRequest {
    build_request(
        token.to_string(),
        domain.to_string(),
        BASE_URL.to_string(),
        Some("example.com".to_string()),
    )
}

fn header_value<'a>(request: &'a OutboundRequest, name: &str) -> Option<&'a str> {
    request
        .headers
        .iter()
        .find(|h| h.name == name)
        .map(|h| h.value.as_str())
}

fn exchange(status: u16, decoded: Result<String, String>) -> Result<String, GeneratorError> {
    check_status(status)?;
    alias_from_decoded(decoded)
}

fn failure_text(status: u16) -> String {
    exchange(status, Ok(EMAIL.to_string())).unwrap_err().message()
}

#[test]
fn test_mock_server() {
    let request = outbound("MY_TOKEN", "myemail.com");
    assert_eq!(request.url, format!("{}/api/v1/aliases", BASE_URL));
    assert_eq!(header_value(&request, "Content-Type"), Some("application/json"));
    assert_eq!(header_value(&request, "Authorization"), Some("Bearer MY_TOKEN"));
    assert_eq!(request.body.domain, "myemail.com");
    assert_eq!(request.body.description, "Website: example.com. Generated by Bitwarden.");
    let address = exchange(201, Ok(EMAIL.to_string())).unwrap();

    let fake = outbound("MY_FAKE_TOKEN", "myemail.com");
    assert_eq!(header_value(&fake, "Authorization"), Some("Bearer MY_FAKE_TOKEN"));
    assert_eq!(fake.body.domain, "myemail.com");
    let fake_token_error = exchange(401, Err("empty body".to_string())).unwrap_err();
    assert!(fake_token_error.message().contains("Invalid addy.io API token."));

    let gmail = outbound("MY_TOKEN", "gmail.com");
    assert_eq!(header_value(&gmail, "Authorization"), Some("Bearer MY_TOKEN"));
    assert_eq!(gmail.body.domain, "gmail.com");
    assert_eq!(gmail.body.description, "Website: example.com. Generated by Bitwarden.");
    let fake_domain_error = exchange(403, Err("empty body".to_string())).unwrap_err();
    assert!(fake_domain_error.message().contains("403 Forbidden"));

    assert_eq!(address, "50c9e585-e7f5-41c4-9016-9014c15454bc@myemail.com");
}

#[test]
fn description_with_website() {
    assert_eq!(
        format_description(&Some("example.com".to_string())),
        "Website: example.com. Generated by Bitwarden."
    );
}

#[test]
fn description_without_website() {
    assert_eq!(format_description(&None), "Generated by Bitwarden.");
}

#[test]
fn alias_request_from_website_hint() {
    let request = AliasRequest::new("myemail.com".to_string(), &Some("shop.test".to_string()));
    assert_eq!(request.domain, "myemail.com");
    assert_eq!(request.description, "Website: shop.test. Generated by Bitwarden.");
}

#[test]
fn request_headers_in_order() {
    let request = outbound("MY_TOKEN", "myemail.com");
    let headers: Vec<(&str, &str, bool)> = request
        .headers
        .iter()
        .map(|h| (h.name.as_str(), h.value.as_str(), h.sensitive))
        .collect();
    assert_eq!(
        headers,
        vec![
            ("Content-Type", "application/json", false),
            ("Authorization", "Bearer MY_TOKEN", true),
            ("X-Requested-With", "XMLHttpRequest", false),
        ]
    );
}

#[test]
fn endpoint_and_bearer() {
    assert_eq!(alias_endpoint("https://app.addy.io"), "https://app.addy.io/api/v1/aliases");
    assert_eq!(alias_endpoint(""), "/api/v1/aliases");
    assert_eq!(bearer_value("abc"), "Bearer abc");
    assert_eq!(bearer_value(""), "Bearer ");
}

#[test]
fn success_statuses_return_email() {
    for status in [200u16, 201, 204, 299] {
        assert!(check_status(status).is_ok());
        assert_eq!(exchange(status, Ok("x@y.z".to_string())).unwrap(), "x@y.z");
    }
}

#[test]
fn unauthorized_ignores_body() {
    let err = exchange(401, Ok(EMAIL.to_string())).unwrap_err();
    assert!(matches!(err, GeneratorError::InvalidCredential));
    assert_eq!(err.message(), "Invalid addy.io API token.");
}

#[test]
fn forbidden_is_status_error() {
    let err = exchange(403, Ok(EMAIL.to_string())).unwrap_err();
    match &err {
        GeneratorError::HttpStatus { code, reason } => {
            assert_eq!(*code, 403);
            assert_eq!(reason.as_deref(), Some("Forbidden"));
        }
        _ => panic!("expected a status error"),
    }
    assert_eq!(err.message(), "HTTP status client error (403 Forbidden)");
    assert!(!err.message().contains("Invalid addy.io API token."));
}

#[test]
fn server_error_message() {
    assert_eq!(failure_text(500), "HTTP status server error (500 Internal Server Error)");
    assert_eq!(failure_text(503), "HTTP status server error (503 Service Unavailable)");
}

#[test]
fn other_non_success_statuses_fail() {
    assert_eq!(failure_text(302), "HTTP status error (302 Found)");
    assert_eq!(failure_text(199), "HTTP status error (199 <unknown status code>)");
    assert_eq!(failure_text(300), "HTTP status error (300 Multiple Choices)");
    assert_eq!(failure_text(404), "HTTP status client error (404 Not Found)");
}

#[test]
fn unknown_status_codes() {
    assert_eq!(failure_text(599), "HTTP status server error (599 <unknown status code>)");
    assert_eq!(failure_text(1000), "HTTP status error (1000 <unknown status code>)");
    assert_eq!(failure_text(0), "HTTP status error (0 <unknown status code>)");
}

#[test]
fn decode_failure_keeps_text() {
    let err = exchange(201, Err("missing field `data`".to_string())).unwrap_err();
    assert!(matches!(err, GeneratorError::Decode(_)));
    assert_eq!(err.message(), "missing field `data`");
}

#[test]
fn transport_failure_keeps_text() {
    let err = GeneratorError::Transport("connection refused".to_string());
    assert_eq!(err.message(), "connection refused");
}

#[test]
fn decimal_notation() {
    assert_eq!(decimal(0), "0");
    assert_eq!(decimal(7), "7");
    assert_eq!(decimal(10), "10");
    assert_eq!(decimal(403), "403");
    assert_eq!(decimal(65535), "65535");
}
