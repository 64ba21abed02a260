use ext_proc::message::{
    BodyMutation, HeaderValue, Phase, ProcessingRequest, ProcessingResponse, RequestPayload,
};
use ext_proc::session::{
    classify_read_error, run_session, InboundEvent, Outbound, ReadFault, SessionAction,
    StreamSession, CLIENT_CLOSED_CODE,
};

fn message(p: RequestPayload) -> InboundEvent {
    InboundEvent::Message(ProcessingRequest { request: Some(p) })
}

fn response(o: &Outbound) -> &ProcessingResponse {
    match o {
        Outbound::Response(r) => r,
        Outbound::InternalError => panic!("unexpected internal error"),
    }
}

#[test]
fn headers_body_trailers_scenario() {
    let h1 = vec![HeaderValue { key: "host".to_string(), value: "example".to_string() }];
    let events = vec![
        message(RequestPayload::RequestHeaders(h1)),
        message(RequestPayload::RequestBody(br#"{"a":1}"#.to_vec())),
        message(RequestPayload::RequestTrailers(vec![])),
    ];
    let out = run_session(&events);
    assert_eq!(out.len(), 3);
    assert!(matches!(response(&out[0]), ProcessingResponse::RequestHeaders(None)));
    match response(&out[1]) {
        ProcessingResponse::RequestBody(Some(c)) => {
            match &c.body_mutation {
                Some(BodyMutation::Body(b)) => assert_eq!(b.as_slice(), b"{}"),
                _ => panic!("expected a replacement body"),
            }
            let h = c.header_mutation.as_ref().unwrap();
            assert_eq!(h.set_headers.len(), 1);
            assert_eq!(h.set_headers[0].key, "content-length");
            assert_eq!(h.set_headers[0].value, "2");
        }
        _ => panic!("expected a request body response"),
    }
    assert!(matches!(response(&out[2]), ProcessingResponse::RequestTrailers(None)));
}

#[test]
fn invalid_body_scenario() {
    let out = run_session(&vec![message(RequestPayload::RequestBody(b"not json".to_vec()))]);
    assert_eq!(out.len(), 1);
    match response(&out[0]) {
        ProcessingResponse::ImmediateResponse(i) => {
            assert_eq!(i.status, 412);
            assert!(i.details.contains("invalid"));
        }
        _ => panic!("expected an immediate response"),
    }
}

#[test]
fn benign_close_scenario() {
    let mut s = StreamSession::new();
    let a = s.on_event(&InboundEvent::ReadFailed(ReadFault::ClientClosed));
    assert!(matches!(a, SessionAction::Close));
    assert!(s.ended());
    let out = run_session(&vec![
        InboundEvent::ReadFailed(ReadFault::ClientClosed),
        message(RequestPayload::RequestHeaders(vec![])),
    ]);
    assert!(out.is_empty());
}

#[test]
fn pairing_keeps_length_and_tags() {
    let events = vec![
        message(RequestPayload::ResponseHeaders(vec![])),
        message(RequestPayload::ResponseBody(b"{\"k\":[1,2]}".to_vec())),
        message(RequestPayload::RequestBody(b"{oops".to_vec())),
        message(RequestPayload::ResponseTrailers(vec![])),
        message(RequestPayload::RequestHeaders(vec![])),
    ];
    let out = run_session(&events);
    assert_eq!(out.len(), events.len());
    let tags: Vec<Option<Phase>> = out.iter().map(|o| response(o).phase()).collect();
    assert_eq!(
        tags,
        vec![
            Some(Phase::ResponseHeaders),
            Some(Phase::ResponseBody),
            None,
            Some(Phase::ResponseTrailers),
            Some(Phase::RequestHeaders),
        ]
    );
}

#[test]
fn order_is_kept_over_many_messages() {
    let mut events = Vec::new();
    for i in 0..200u32 {
        let body = if i % 3 == 0 { format!("{{\"n\":{}}}", i) } else { format!("bad {}", i) };
        if i % 2 == 0 {
            events.push(message(RequestPayload::RequestBody(body.into_bytes())));
        } else {
            events.push(message(RequestPayload::ResponseHeaders(vec![])));
        }
    }
    let out = run_session(&events);
    assert_eq!(out.len(), 200);
    for (i, o) in out.iter().enumerate() {
        let r = response(o);
        if i % 2 == 1 {
            assert_eq!(r.phase(), Some(Phase::ResponseHeaders));
        } else if i % 3 == 0 {
            assert_eq!(r.phase(), Some(Phase::RequestBody));
        } else {
            assert_eq!(r.phase(), None);
        }
    }
}

#[test]
fn transport_error_sends_internal_error_and_ends() {
    let out = run_session(&vec![
        message(RequestPayload::RequestHeaders(vec![])),
        InboundEvent::ReadFailed(ReadFault::Transport),
        message(RequestPayload::RequestTrailers(vec![])),
    ]);
    assert_eq!(out.len(), 2);
    assert!(matches!(out[1], Outbound::InternalError));
}

#[test]
fn missing_payload_sends_internal_error_and_ends() {
    let out = run_session(&vec![
        InboundEvent::Message(ProcessingRequest { request: None }),
        message(RequestPayload::RequestHeaders(vec![])),
    ]);
    assert_eq!(out.len(), 1);
    assert!(matches!(out[0], Outbound::InternalError));
}

#[test]
fn exhausted_input_ends_quietly() {
    let out = run_session(&vec![
        message(RequestPayload::RequestHeaders(vec![])),
        InboundEvent::Exhausted,
        message(RequestPayload::RequestHeaders(vec![])),
    ]);
    assert_eq!(out.len(), 1);
    assert!(run_session(&vec![]).is_empty());
}

#[test]
fn failing_session_leaves_other_session_alone() {
    let mut a = StreamSession::new();
    let mut b = StreamSession::new();
    let ok = message(RequestPayload::RequestBody(b"{}".to_vec()));
    assert!(matches!(b.on_event(&ok), SessionAction::Send(_)));
    let fa = a.on_event(&InboundEvent::Message(ProcessingRequest { request: None }));
    assert!(matches!(fa, SessionAction::SendAndClose(Outbound::InternalError)));
    assert!(a.ended());
    assert!(!b.ended());
    match b.on_event(&ok) {
        SessionAction::Send(Outbound::Response(r)) => {
            assert_eq!(r.phase(), Some(Phase::RequestBody))
        }
        _ => panic!("session b should go on"),
    }
    let fa2 = StreamSession::new().on_event(&InboundEvent::ReadFailed(ReadFault::Transport));
    assert!(matches!(fa2, SessionAction::SendAndClose(Outbound::InternalError)));
    assert!(!b.ended());
}

#[test]
fn read_errors_are_classified_by_code() {
    assert_eq!(classify_read_error(CLIENT_CLOSED_CODE), ReadFault::ClientClosed);
    assert_eq!(classify_read_error(2), ReadFault::ClientClosed);
    assert_eq!(classify_read_error(13), ReadFault::Transport);
    assert_eq!(classify_read_error(0), ReadFault::Transport);
}

#[test]
fn outbound_gone_ends_session() {
    let mut s = StreamSession::new();
    assert!(!s.ended());
    s.on_outbound_gone();
    assert!(s.ended());
}
