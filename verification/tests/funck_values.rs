//! The invocation value types and the sample funcktions.

use funcky::samples::{self, StubBehavior, StubFunck, TestFn};
use funcky::{CallError, Funcktion, Message, Request, Response};

#[test]
fn request_carries_body_and_metadata() {
    let req = Request::new(
        b"payload".to_vec(),
        vec![("Content-Type".to_string(), "text/plain".to_string())],
    );
    assert_eq!(req.body().as_slice(), b"payload");
    assert_eq!(
        req.metadata().as_slice(),
        &[("Content-Type".to_string(), "text/plain".to_string())]
    );
}

#[test]
fn response_builder_appends() {
    let resp = Response::new()
        .with_meta("Content-Type", "application/json")
        .with_meta("X-Trace", "7")
        .with_bytes(b"{}".to_vec());
    assert_eq!(resp.body().as_slice(), b"{}");
    assert_eq!(
        resp.metadata().as_slice(),
        &[
            ("Content-Type".to_string(), "application/json".to_string()),
            ("X-Trace".to_string(), "7".to_string())
        ]
    );
}

#[test]
fn empty_response_is_empty() {
    let resp = Response::new();
    assert!(resp.body().is_empty());
    assert!(resp.metadata().is_empty());
}

#[test]
fn call_error_keeps_its_message() {
    let e = CallError::new("broken pipe".to_string());
    assert_eq!(e.message().as_str(), "broken pipe");
}

#[test]
fn test_fn_greets() {
    let f = TestFn::default();
    assert_eq!(f.name(), "hello_fn");
    let resp = f._call_internal(Request::new(Vec::new(), Vec::new())).unwrap();
    assert_eq!(resp.body().as_slice(), b"I just got called");
}

#[test]
fn stub_behaviors() {
    let fixed = StubFunck::new("a".to_string(), StubBehavior::Fixed(b"hi".to_vec()));
    assert_eq!(fixed.name(), "a");
    let r = fixed
        ._call_internal(Request::new(b"x".to_vec(), Vec::new()))
        .unwrap();
    assert_eq!(r.body().as_slice(), b"hi");

    let echo = StubFunck::new("b".to_string(), StubBehavior::Echo);
    let r = echo
        ._call_internal(Request::new(vec![9, 8], Vec::new()))
        .unwrap();
    assert_eq!(r.body().as_slice(), &[9, 8]);

    let rev = StubFunck::new("c".to_string(), StubBehavior::ReverseEcho);
    let r = rev
        ._call_internal(Request::new(vec![1, 2, 3], Vec::new()))
        .unwrap();
    assert_eq!(r.body().as_slice(), &[3, 2, 1]);

    let fail = StubFunck::new("d".to_string(), StubBehavior::Fail("why".to_string()));
    let e = fail
        ._call_internal(Request::new(Vec::new(), Vec::new()))
        .unwrap_err();
    assert_eq!(e.message().as_str(), "why");
}

#[test]
fn sample_payload_helpers() {
    assert_eq!(
        samples::greeting_for("Ada", "Lovelace"),
        "Hello there,  Mr. Ada Lovelace"
    );
    assert_eq!(samples::default_notification_title(), "Funck Notification");
    assert_eq!(
        samples::with_call_count("build finished", 3),
        "build finished (called 3 times)"
    );
    let n = samples::NotificationResponse::new("OK");
    assert_eq!(n.message, "OK");
}

#[test]
fn message_envelopes() {
    let m = Message::new("OK");
    assert_eq!(m.message().as_str(), "OK");
    let e = funcky::ErrorMessage::new("broken");
    assert_eq!(e.error().as_str(), "broken");
}
