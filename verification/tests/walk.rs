use nftide::retry::{Cause, FetchError, HttpResponse, Outcome};
use nftide::session::{begin, Action};

fn ok_response(body: &str) -> Outcome {
    Outcome::Response(HttpResponse {
        status: 200,
        retry_after: None,
        body: body.to_string(),
    })
}

fn status_response(status: u16, retry_after: Option<&str>) -> Outcome {
    Outcome::Response(HttpResponse {
        status,
        retry_after: retry_after.map(|s| s.to_string()),
        body: String::new(),
    })
}

fn event(text: &str) -> serde_json::Value {
    serde_json::from_str(text).unwrap()
}

#[test]
fn walk_terminates_and_concatenates() {
    let (mut s, req0) = begin("doodles".to_string(), None, None);
    assert_eq!(
        req0.url,
        "https://api.opensea.io/api/v2/events/collection/doodles"
    );
    let bodies = [
        r#"{"asset_events":[{"id":1}],"next":"c1"}"#,
        r#"{"asset_events":[{"id":2},{"id":3}],"next":"c2"}"#,
        r#"{"asset_events":[],"next":"c3"}"#,
        r#"{"asset_events":[{"id":4}],"next":""}"#,
    ];
    let mut requests = 1;
    let mut result: Option<String> = None;
    for body in bodies {
        match s.on_outcome(ok_response(body)) {
            Action::Request(_) => {
                requests += 1;
            }
            Action::Finished(text) => {
                result = Some(text);
            }
            _ => panic!("unexpected action"),
        }
    }
    assert_eq!(requests, 4);
    let text = result.expect("the walk should have finished");
    let got: Vec<serde_json::Value> = serde_json::from_str(&text).unwrap();
    let want = vec![
        event(r#"{"id":1}"#),
        event(r#"{"id":2}"#),
        event(r#"{"id":3}"#),
        event(r#"{"id":4}"#),
    ];
    assert_eq!(got, want);
}

#[test]
fn empty_collection_yields_empty_array() {
    let (mut s, _req) = begin("empty".to_string(), None, None);
    let mut requests = 1;
    match s.on_outcome(ok_response(r#"{"asset_events":[],"next":""}"#)) {
        Action::Finished(text) => {
            assert_eq!(text, "[]");
        }
        Action::Request(_) => {
            requests += 1;
            panic!("no further page should be requested");
        }
        _ => panic!("unexpected action"),
    }
    assert_eq!(requests, 1);
}

#[test]
fn retry_then_succeed_honors_retry_after() {
    let (mut s, _req) = begin("slug".to_string(), None, None);
    let mut sleeps = 0;
    match s.on_outcome(status_response(429, Some("2"))) {
        Action::Sleep { secs, attempt, cause } => {
            sleeps += 1;
            assert_eq!(secs, 2);
            assert_eq!(attempt, 1);
            assert!(matches!(cause, Cause::RateLimited));
        }
        _ => panic!("a 429 with budget left should back off"),
    }
    let _req = s.on_slept();
    match s.on_outcome(ok_response(r#"{"asset_events":[{"id":9}],"next":""}"#)) {
        Action::Finished(text) => {
            let got: Vec<serde_json::Value> = serde_json::from_str(&text).unwrap();
            assert_eq!(got, vec![event(r#"{"id":9}"#)]);
        }
        _ => panic!("the second attempt should finish the walk"),
    }
    assert_eq!(sleeps, 1);
}

#[test]
fn retry_exhaustion_on_server_error() {
    let (mut s, _req) = begin("slug".to_string(), None, None);
    let mut requests = 1;
    let mut sleeps: u8 = 0;
    loop {
        match s.on_outcome(status_response(500, None)) {
            Action::Sleep { secs, attempt, cause } => {
                sleeps += 1;
                assert_eq!(secs, 5);
                assert_eq!(attempt, sleeps);
                assert!(matches!(cause, Cause::ServerError(500)));
                let _req = s.on_slept();
                requests += 1;
            }
            Action::Failed(FetchError::RetriesExhausted(cause)) => {
                assert!(matches!(cause, Cause::ServerError(500)));
                break;
            }
            _ => panic!("unexpected action"),
        }
    }
    assert_eq!(sleeps, 5);
    assert_eq!(requests, 6);
}

#[test]
fn non_retryable_fails_at_once() {
    let (mut s, _req) = begin("slug".to_string(), None, None);
    match s.on_outcome(status_response(404, None)) {
        Action::Failed(FetchError::NonRetryable(status)) => {
            assert_eq!(status, 404);
        }
        _ => panic!("a 404 must fail with zero retries"),
    }
}

#[test]
fn transport_failures_are_retried() {
    let (mut s, _req) = begin("slug".to_string(), None, None);
    match s.on_outcome(Outcome::TransportFailure("connection reset".to_string())) {
        Action::Sleep { secs, attempt, cause } => {
            assert_eq!(secs, 5);
            assert_eq!(attempt, 1);
            match cause {
                Cause::Transport(m) => assert_eq!(m, "connection reset"),
                _ => panic!("the cause should carry the transport message"),
            }
        }
        _ => panic!("a transport failure with budget left should back off"),
    }
}

#[test]
fn filter_and_cursor_appear_in_urls() {
    let (mut s, req0) = begin("slug".to_string(), Some("sale".to_string()), None);
    assert_eq!(
        req0.url,
        "https://api.opensea.io/api/v2/events/collection/slug?event_type=sale"
    );
    match s.on_outcome(ok_response(r#"{"asset_events":[],"next":"cur 1"}"#)) {
        Action::Request(req1) => {
            assert!(req1.url.contains("event_type=sale"));
            assert!(req1.url.contains("next=cur+1"));
        }
        _ => panic!("a non-empty cursor should drive another request"),
    }
}

#[test]
fn api_key_rides_along() {
    let (mut s, req0) = begin(
        "slug".to_string(),
        None,
        Some("demo-key-123".to_string()),
    );
    assert_eq!(req0.api_key.as_deref(), Some("demo-key-123"));
    match s.on_outcome(ok_response(r#"{"asset_events":[],"next":"k"}"#)) {
        Action::Request(req1) => {
            assert_eq!(req1.api_key.as_deref(), Some("demo-key-123"));
        }
        _ => panic!("a non-empty cursor should drive another request"),
    }
}

#[test]
fn malformed_body_is_terminal() {
    let (mut s, _req) = begin("slug".to_string(), None, None);
    match s.on_outcome(ok_response("this is not json")) {
        Action::Failed(FetchError::Serialization) => {}
        _ => panic!("an unparsable body must end the walk"),
    }
}

#[test]
fn missing_or_non_array_fields_mean_empty_page() {
    let (mut s, _req) = begin("slug".to_string(), None, None);
    match s.on_outcome(ok_response(r#"{"asset_events":7,"next":5}"#)) {
        Action::Finished(text) => {
            assert_eq!(text, "[]");
        }
        _ => panic!("a page without usable fields is empty and final"),
    }
    let (mut s2, _req) = begin("slug".to_string(), None, None);
    match s2.on_outcome(ok_response("{}")) {
        Action::Finished(text) => {
            assert_eq!(text, "[]");
        }
        _ => panic!("a page without fields is empty and final"),
    }
}

#[test]
fn reserialization_round_trips() {
    let (mut s, _req) = begin("slug".to_string(), None, None);
    match s.on_outcome(ok_response(
        r#"{"asset_events":[{"kind":"sale","price":"12"},{"kind":"offer","nested":{"a":[1,2]}}],"next":"k1"}"#,
    )) {
        Action::Request(_) => {}
        _ => panic!("a non-empty cursor should drive another request"),
    }
    let text = match s.on_outcome(ok_response(r#"{"asset_events":[{"kind":"listing"}],"next":""}"#))
    {
        Action::Finished(text) => text,
        _ => panic!("the walk should finish"),
    };
    let parsed: Vec<serde_json::Value> = serde_json::from_str(&text).unwrap();
    let want = vec![
        event(r#"{"kind":"sale","price":"12"}"#),
        event(r#"{"kind":"offer","nested":{"a":[1,2]}}"#),
        event(r#"{"kind":"listing"}"#),
    ];
    assert_eq!(parsed, want);
    let again: Vec<serde_json::Value> =
        serde_json::from_str(&serde_json::to_string(&parsed).unwrap()).unwrap();
    assert_eq!(again, parsed);
}
