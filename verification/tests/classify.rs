use nftide::digits::parse_u64;
use nftide::retry::{classify, Cause, Class, HttpResponse, Outcome};

fn response(status: u16, retry_after: Option<&str>) -> Outcome {
    Outcome::Response(HttpResponse {
        status,
        retry_after: retry_after.map(|s| s.to_string()),
        body: String::new(),
    })
}

#[test]
fn parse_u64_accepts_digit_strings() {
    assert_eq!(parse_u64("0"), Some(0));
    assert_eq!(parse_u64("7"), Some(7));
    assert_eq!(parse_u64("120"), Some(120));
    assert_eq!(parse_u64("18446744073709551615"), Some(u64::MAX));
}

#[test]
fn parse_u64_rejects_everything_else() {
    assert_eq!(parse_u64(""), None);
    assert_eq!(parse_u64("1a"), None);
    assert_eq!(parse_u64(" 1"), None);
    assert_eq!(parse_u64("+1"), None);
    assert_eq!(parse_u64("-1"), None);
    assert_eq!(parse_u64("1.5"), None);
    assert_eq!(parse_u64("18446744073709551616"), None);
    assert_eq!(parse_u64("99999999999999999999999999"), None);
    assert_eq!(parse_u64("\u{0661}\u{0662}"), None);
}

#[test]
fn success_statuses_are_success() {
    assert!(matches!(classify(response(200, None)), Class::Success(_)));
    assert!(matches!(classify(response(204, None)), Class::Success(_)));
    assert!(matches!(classify(response(299, None)), Class::Success(_)));
}

#[test]
fn rate_limit_uses_header_when_positive() {
    match classify(response(429, Some("2"))) {
        Class::Retry { secs, cause } => {
            assert_eq!(secs, 2);
            assert!(matches!(cause, Cause::RateLimited));
        }
        _ => panic!("a 429 must be retryable"),
    }
}

#[test]
fn rate_limit_defaults_without_usable_header() {
    for header in [None, Some("0"), Some(""), Some("soon"), Some("-3"), Some("2.5")] {
        match classify(response(429, header)) {
            Class::Retry { secs, cause } => {
                assert_eq!(secs, 5);
                assert!(matches!(cause, Cause::RateLimited));
            }
            _ => panic!("a 429 must be retryable"),
        }
    }
}

#[test]
fn server_errors_back_off_fixed() {
    for status in [500, 502, 503, 599] {
        match classify(response(status, None)) {
            Class::Retry { secs, cause } => {
                assert_eq!(secs, 5);
                assert!(matches!(cause, Cause::ServerError(s) if s == status));
            }
            _ => panic!("a 5xx must be retryable"),
        }
    }
}

#[test]
fn other_statuses_are_fatal() {
    for status in [100, 301, 304, 400, 401, 403, 404, 410, 451] {
        match classify(response(status, None)) {
            Class::Fatal(s) => assert_eq!(s, status),
            _ => panic!("status {} must be fatal", status),
        }
    }
}

#[test]
fn transport_failures_carry_their_message() {
    match classify(Outcome::TransportFailure("dns failure".to_string())) {
        Class::Retry { secs, cause } => {
            assert_eq!(secs, 5);
            match cause {
                Cause::Transport(m) => assert_eq!(m, "dns failure"),
                _ => panic!("the cause should be the transport failure"),
            }
        }
        _ => panic!("a transport failure must be retryable"),
    }
}
