use verji_vagent_bot::bridge::{
    interpret_payload, reply_text, GraphMessage, GraphMessageType, GraphRequest, GraphResponse,
    PendingQuery, PollAction, PollEvent, WaitError, QUERY_TIMEOUT_MS, REQUEST_CHANNEL,
    RESPONSE_CHANNEL,
};

fn message(id: &str, kind: GraphMessageType, content: &str) -> GraphMessage {
    GraphMessage {
        request_id: id.to_string(),
        message_type: kind,
        content: content.to_string(),
        metadata: None,
    }
}

fn pending() -> (GraphRequest, PendingQuery) {
    let req = GraphRequest::new(
        "explain X".to_string(),
        "!room:hs".to_string(),
        "@bob:hs".to_string(),
        42,
    );
    let q = PendingQuery::new(&req, QUERY_TIMEOUT_MS);
    (req, q)
}

#[test]
fn channel_names() {
    assert_eq!(REQUEST_CHANNEL, "vagent:requests");
    assert_eq!(RESPONSE_CHANNEL, "vagent:responses");
}

#[test]
fn pending_query_takes_the_request_id() {
    let (req, q) = pending();
    assert_eq!(q.request_id, req.request_id);
    assert_eq!(q.timeout_ms, 30_000);
}

#[test]
fn terminal_message_completes_the_query() {
    let (req, q) = pending();
    assert!(!q.expired(500));
    let ev = PollEvent::Delivered(Some(message(&req.request_id, GraphMessageType::FinalResponse, "answer")));
    match q.on_event(ev) {
        PollAction::Complete(m) => assert_eq!(reply_text(m), "answer"),
        _ => panic!("a final response ends the wait"),
    }
}

#[test]
fn hitl_request_is_terminal() {
    let (req, q) = pending();
    let ev = PollEvent::Delivered(Some(message(&req.request_id, GraphMessageType::HitlRequest, "which one?")));
    match q.on_event(ev) {
        PollAction::Complete(m) => assert_eq!(reply_text(m), "which one?"),
        _ => panic!("a human-in-the-loop request ends the wait"),
    }
}

#[test]
fn progress_is_relayed_in_order_before_the_answer() {
    let (req, q) = pending();
    let mut relayed: Vec<String> = Vec::new();
    let mut answer: Option<String> = None;
    let events = vec![
        PollEvent::Delivered(Some(message(&req.request_id, GraphMessageType::Progress, "step1"))),
        PollEvent::Quiet,
        PollEvent::Delivered(Some(message(&req.request_id, GraphMessageType::Progress, "step2"))),
        PollEvent::Delivered(Some(message(&req.request_id, GraphMessageType::FinalResponse, "done"))),
    ];
    for ev in events {
        assert!(answer.is_none());
        match q.on_event(ev) {
            PollAction::Wait => {}
            PollAction::Relay(t) => relayed.push(t),
            PollAction::Complete(m) => answer = Some(reply_text(m)),
            PollAction::Abort(_) => panic!("nothing failed"),
        }
    }
    assert_eq!(relayed, vec!["step1".to_string(), "step2".to_string()]);
    assert_eq!(answer, Some("done".to_string()));
}

#[test]
fn foreign_request_id_is_ignored() {
    let (req, q) = pending();
    let decoy = PollEvent::Delivered(Some(message("some-other-request", GraphMessageType::FinalResponse, "not yours")));
    assert!(matches!(q.on_event(decoy), PollAction::Wait));
    let decoy_progress = PollEvent::Delivered(Some(message("some-other-request", GraphMessageType::Progress, "nope")));
    assert!(matches!(q.on_event(decoy_progress), PollAction::Wait));
    let ours = PollEvent::Delivered(Some(message(&req.request_id, GraphMessageType::FinalResponse, "yours")));
    match q.on_event(ours) {
        PollAction::Complete(m) => assert_eq!(m.content, "yours"),
        _ => panic!("the matching message ends the wait"),
    }
}

#[test]
fn unreadable_payload_and_quiet_polls_keep_waiting() {
    let (_req, q) = pending();
    assert!(matches!(q.on_event(PollEvent::Quiet), PollAction::Wait));
    assert!(matches!(q.on_event(PollEvent::Delivered(None)), PollAction::Wait));
}

#[test]
fn closed_stream_aborts() {
    let (_req, q) = pending();
    assert!(matches!(q.on_event(PollEvent::Closed), PollAction::Abort(WaitError::StreamEnded)));
}

#[test]
fn deadline_is_strict() {
    let (_req, q) = pending();
    assert!(!q.expired(0));
    assert!(!q.expired(30_000));
    assert!(q.expired(30_001));
    assert!(q.expired(u64::MAX));
}

#[test]
fn error_message_reply_is_marked() {
    assert_eq!(reply_text(message("r", GraphMessageType::Error, "boom")), "Error: boom");
    assert_eq!(reply_text(message("r", GraphMessageType::Progress, "half")), "half");
}

#[test]
fn legacy_error_uses_error_text() {
    let legacy = GraphResponse {
        request_id: "req-1".to_string(),
        response: "partial".to_string(),
        status: "error".to_string(),
        error: Some("service down".to_string()),
    };
    let m = legacy.into_message();
    assert_eq!(m.request_id, "req-1");
    assert_eq!(m.message_type, GraphMessageType::Error);
    assert_eq!(m.content, "service down");
    assert!(m.metadata.is_none());
    assert_eq!(reply_text(m), "Error: service down");
}

#[test]
fn legacy_error_without_text_uses_response() {
    let legacy = GraphResponse {
        request_id: "req-2".to_string(),
        response: "it failed".to_string(),
        status: "error".to_string(),
        error: None,
    };
    let m = legacy.into_message();
    assert_eq!(m.message_type, GraphMessageType::Error);
    assert_eq!(m.content, "it failed");
}

#[test]
fn legacy_success_is_final_response() {
    let legacy = GraphResponse {
        request_id: "req-3".to_string(),
        response: "all good".to_string(),
        status: "success".to_string(),
        error: None,
    };
    let m = legacy.into_message();
    assert_eq!(m.message_type, GraphMessageType::FinalResponse);
    assert_eq!(m.content, "all good");
}

#[test]
fn legacy_error_ends_the_wait() {
    let (req, q) = pending();
    let legacy = GraphResponse {
        request_id: req.request_id.clone(),
        response: String::new(),
        status: "error".to_string(),
        error: Some("bad input".to_string()),
    };
    let m = interpret_payload(None, Some(legacy));
    match q.on_event(PollEvent::Delivered(m)) {
        PollAction::Complete(m) => {
            assert_eq!(m.message_type, GraphMessageType::Error);
            assert_eq!(m.content, "bad input");
        }
        _ => panic!("a legacy response is terminal"),
    }
}

#[test]
fn current_shape_wins_over_legacy() {
    let primary = message("a", GraphMessageType::Progress, "p");
    let legacy = GraphResponse {
        request_id: "b".to_string(),
        response: "r".to_string(),
        status: "success".to_string(),
        error: None,
    };
    let m = interpret_payload(Some(primary), Some(legacy)).unwrap();
    assert_eq!(m.request_id, "a");
    assert_eq!(m.message_type, GraphMessageType::Progress);
    assert!(interpret_payload(None, None).is_none());
}

#[test]
fn message_to_legacy_shape() {
    let r = GraphResponse::from_message(message("x", GraphMessageType::Error, "oops"));
    assert_eq!(r.request_id, "x");
    assert_eq!(r.response, "oops");
    assert_eq!(r.status, "error");
    assert_eq!(r.error, Some("oops".to_string()));
    let r = GraphResponse::from_message(message("y", GraphMessageType::FinalResponse, "fine"));
    assert_eq!(r.status, "success");
    assert_eq!(r.response, "fine");
    assert!(r.error.is_none());
}
