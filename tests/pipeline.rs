use phobost::pipeline::{
    accept_request, begin_request, finish_request, request_id_header, timeout_stage,
    HandlerOutcome, InboundRequest, REQUEST_TIMEOUT_SECS, TIMEOUT_STATUS,
};

fn request(id: Option<&str>) -> InboundRequest {
    InboundRequest {
        method: "GET".to_string(),
        target: "/v1/health".to_string(),
        version: "HTTP/1.1".to_string(),
        request_id: id.map(|s| s.to_string()),
    }
}

#[test]
fn header_name_and_timeout_are_fixed() {
    assert_eq!(request_id_header(), "x-request-id");
    assert_eq!(REQUEST_TIMEOUT_SECS, 30);
    assert_eq!(TIMEOUT_STATUS, 408);
}

#[test]
fn supplied_identifier_is_echoed_unchanged() {
    let ctx = accept_request(request(Some("client-42")), "fresh".to_string());
    assert_eq!(ctx.request_id, "client-42");
    assert_eq!(ctx.method, "GET");
    assert_eq!(ctx.target, "/v1/health");
    assert_eq!(ctx.version, "HTTP/1.1");
    let done = finish_request(&ctx, HandlerOutcome::Completed { status: 200 }, 5);
    assert_eq!(done.response.request_id, "client-42");
    assert_eq!(done.span.request_id, "client-42");
    assert_eq!(done.response.status, 200);
    assert_eq!(done.span.status, 200);
    assert_eq!(done.span.latency_ms, 5);
}

#[test]
fn missing_identifier_takes_the_fresh_one() {
    let ctx = accept_request(request(None), "abc".to_string());
    assert_eq!(ctx.request_id, "abc");
    let done = finish_request(&ctx, HandlerOutcome::Completed { status: 404 }, 1);
    assert_eq!(done.response.request_id, "abc");
    assert_eq!(done.span.request_id, "abc");
    assert_eq!(done.response.status, 404);
}

#[test]
fn generated_identifiers_are_uuids() {
    let a = begin_request(request(None));
    let b = begin_request(request(None));
    assert_eq!(a.request_id.len(), 36);
    assert_eq!(a.request_id.matches('-').count(), 4);
    for (i, c) in a.request_id.chars().enumerate() {
        if i == 8 || i == 13 || i == 18 || i == 23 {
            assert_eq!(c, '-');
        } else {
            assert!(c.is_ascii_digit() || ('a'..='f').contains(&c));
        }
    }
    assert_eq!(a.request_id.chars().nth(14), Some('4'));
    assert!(matches!(a.request_id.chars().nth(19), Some('8' | '9' | 'a' | 'b')));
    assert_ne!(a.request_id, b.request_id);
    let done = finish_request(&a, HandlerOutcome::Completed { status: 200 }, 0);
    assert_eq!(done.response.request_id, a.request_id);
    assert_eq!(done.span.request_id, a.request_id);
}

#[test]
fn begin_request_keeps_supplied_identifier() {
    let ctx = begin_request(request(Some("")));
    assert_eq!(ctx.request_id, "");
    let ctx = begin_request(request(Some("x")));
    assert_eq!(ctx.request_id, "x");
}

#[test]
fn slow_handler_gets_timeout_status() {
    assert_eq!(timeout_stage(HandlerOutcome::TimedOut), 408);
    assert_eq!(timeout_stage(HandlerOutcome::Completed { status: 201 }), 201);
    let slow = accept_request(request(None), "slow".to_string());
    let fast = accept_request(request(None), "fast".to_string());
    let slow_done = finish_request(&slow, HandlerOutcome::TimedOut, 30_000);
    let fast_done = finish_request(&fast, HandlerOutcome::Completed { status: 200 }, 3);
    assert_eq!(slow_done.response.status, 408);
    assert_eq!(slow_done.span.status, 408);
    assert_eq!(slow_done.response.request_id, "slow");
    assert_eq!(fast_done.response.status, 200);
}
