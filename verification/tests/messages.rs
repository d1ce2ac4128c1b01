use fetcher::decimal::{decimal_string, digit_str};
use fetcher::error::FetchError;
use fetcher::machine::{Event, Fetch};
use fetcher::payload::FetchKind;
use fetcher::status::{code_is_success, status_text};

fn status_failure(kind: FetchKind, url: &str, status: u16) -> FetchError {
    let (fetch, _) = Fetch::start(kind, url).step(Event::Response { status });
    match fetch.into_outcome() {
        Some(Err(error)) => error,
        other => panic!("no failure: {:?}", other),
    }
}

#[test]
fn digits_are_rendered() {
    let expected = ["0", "1", "2", "3", "4", "5", "6", "7", "8", "9"];
    for digit in 0..10u64 {
        assert_eq!(digit_str(digit), expected[digit as usize]);
    }
}

#[test]
fn numbers_are_rendered_in_decimal() {
    assert_eq!(decimal_string(0), "0");
    assert_eq!(decimal_string(7), "7");
    assert_eq!(decimal_string(10), "10");
    assert_eq!(decimal_string(404), "404");
    assert_eq!(decimal_string(1000), "1000");
    assert_eq!(decimal_string(65535), "65535");
    assert_eq!(decimal_string(u64::MAX), "18446744073709551615");
}

#[test]
fn decimal_agrees_with_the_standard_library() {
    for n in 0..3000u64 {
        assert_eq!(decimal_string(n), n.to_string());
    }
}

#[test]
fn the_success_class_is_200_to_299() {
    assert!(!code_is_success(0));
    assert!(!code_is_success(199));
    assert!(code_is_success(200));
    assert!(code_is_success(204));
    assert!(code_is_success(299));
    assert!(!code_is_success(300));
    assert!(!code_is_success(404));
    assert!(!code_is_success(500));
    assert!(!code_is_success(u16::MAX));
}

#[test]
fn the_success_class_is_that_of_the_http_client() {
    for code in 100..1000u16 {
        let status = reqwest::StatusCode::from_u16(code).unwrap();
        assert_eq!(code_is_success(code), status.is_success(), "code {}", code);
    }
}

#[test]
fn a_status_is_shown_as_the_http_client_shows_it() {
    for code in 100..1000u16 {
        let status = reqwest::StatusCode::from_u16(code).unwrap();
        assert_eq!(status_text(code, status.canonical_reason()), status.to_string());
    }
}

#[test]
fn a_status_is_shown_with_code_and_reason() {
    assert_eq!(status_text(200, Some("OK")), "200 OK");
    assert_eq!(status_text(404, Some("Not Found")), "404 Not Found");
    assert_eq!(status_text(799, None), "799 <unknown status code>");
    assert_eq!(status_text(7, None), "7 <unknown status code>");
}

#[test]
fn reason_phrases_are_those_of_the_http_client() {
    for code in 100..1000u16 {
        if code_is_success(code) {
            continue;
        }
        let expected = reqwest::StatusCode::from_u16(code)
            .unwrap()
            .canonical_reason()
            .map(|phrase| phrase.to_string());
        match status_failure(FetchKind::Content, "u", code) {
            FetchError::HttpStatusFailure { reason, .. } => assert_eq!(reason, expected),
            other => panic!("code {}: {:?}", code, other),
        }
    }
}

#[test]
fn transport_exhausted_message() {
    let error = FetchError::TransportExhausted {
        attempts: 3,
        cause: "error sending request for url (http://example.test/)".to_string(),
    };
    assert_eq!(
        error.message(),
        "Request failed after 3 attempts: error sending request for url (http://example.test/)"
    );
}

#[test]
fn content_status_failure_message() {
    let error = status_failure(FetchKind::Content, "http://example.test/missing", 404);
    assert_eq!(
        error.message(),
        "Failed to fetch from http://example.test/missing: HTTP 404 (Not Found)"
    );
    let error = status_failure(FetchKind::Content, "http://example.test/", 500);
    assert_eq!(
        error.message(),
        "Failed to fetch from http://example.test/: HTTP 500 (Internal Server Error)"
    );
}

#[test]
fn content_status_failure_message_without_reason() {
    let error = status_failure(FetchKind::Content, "http://example.test/", 799);
    assert_eq!(error.message(), "Failed to fetch from http://example.test/: HTTP 799 (Unknown)");
}

#[test]
fn json_status_failure_message() {
    let error = status_failure(FetchKind::Json, "http://example.test/missing", 404);
    assert_eq!(
        error.message(),
        "JSON request failed with status 404 Not Found: http://example.test/missing"
    );
    let error = status_failure(FetchKind::Json, "http://example.test/", 500);
    assert_eq!(
        error.message(),
        "JSON request failed with status 500 Internal Server Error: http://example.test/"
    );
}

#[test]
fn json_status_failure_message_without_reason() {
    let error = status_failure(FetchKind::Json, "http://example.test/", 799);
    assert_eq!(
        error.message(),
        "JSON request failed with status 799 <unknown status code>: http://example.test/"
    );
}

#[test]
fn status_failure_messages_follow_the_http_client() {
    let url = "http://example.test/x";
    for code in [301u16, 400, 418, 451, 503, 600] {
        let status = reqwest::StatusCode::from_u16(code).unwrap();
        let expected = format!("JSON request failed with status {}: {}", status, url);
        assert_eq!(status_failure(FetchKind::Json, url, code).message(), expected);
        let expected = format!(
            "Failed to fetch from {}: HTTP {} ({})",
            url,
            status.as_u16(),
            status.canonical_reason().unwrap_or("Unknown")
        );
        assert_eq!(status_failure(FetchKind::Content, url, code).message(), expected);
    }
}

#[test]
fn body_read_failure_message() {
    let error = FetchError::BodyReadFailure { cause: "error decoding response body".to_string() };
    assert_eq!(error.message(), "Failed to read response: error decoding response body");
}

#[test]
fn json_parse_failure_message() {
    let (fetch, _) = Fetch::start(FetchKind::Json, "u").step(Event::Response { status: 200 });
    let (fetch, _) = fetch.step(Event::Bytes { bytes: b"{\"a\": }".to_vec() });
    match fetch.into_outcome() {
        Some(Err(error)) => {
            assert_eq!(error.message(), "Failed to parse JSON: expected value at line 1 column 7")
        }
        other => panic!("no failure: {:?}", other),
    }
}

#[test]
fn messages_keep_empty_parts() {
    let error = FetchError::TransportExhausted { attempts: 0, cause: String::new() };
    assert_eq!(error.message(), "Request failed after 0 attempts: ");
    let error = FetchError::HttpStatusFailure {
        kind: FetchKind::Content,
        url: String::new(),
        status: 0,
        reason: Some(String::new()),
    };
    assert_eq!(error.message(), "Failed to fetch from : HTTP 0 ()");
}
