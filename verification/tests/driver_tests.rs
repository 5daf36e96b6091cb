use ext_proc_playground::client::{ClientStream, Config, StreamHandleError, StreamState};
use ext_proc_playground::data::{body_file_needed, DummyData, DummyDataConfig};
use ext_proc_playground::message::{
    GrpcStatus, HttpTrailers, Phase, ProcessingRequest, ProcessingResponse, Request, Response,
    ResponseStatus,
};
use ext_proc_playground::mode::{BodySendMode, HeaderSendMode, ProcessingMode};
use ext_proc_playground::server::ExtProcService;

fn default_mode() -> ProcessingMode {
    ProcessingMode::initial()
}

fn unspecified_mode() -> ProcessingMode {
    ProcessingMode {
        request_header_mode: HeaderSendMode::Unspecified,
        response_header_mode: HeaderSendMode::Unspecified,
        request_body_mode: BodySendMode::Omit,
        response_body_mode: BodySendMode::Omit,
        request_trailer_mode: HeaderSendMode::Unspecified,
        response_trailer_mode: HeaderSendMode::Unspecified,
    }
}

fn fixture(req_body: Vec<u8>, resp_body: Vec<u8>) -> DummyData {
    DummyData::assemble(
        DummyDataConfig {
            request_headers: vec![("host".to_string(), "example.com".to_string())],
            request_body_filename: String::new(),
            response_status: 200,
            response_headers: vec![("content-type".to_string(), "text/html".to_string())],
            response_body_filename: String::new(),
        },
        req_body,
        resp_body,
    )
}

fn reuse_forever() -> Config {
    Config { reuse_stream: true, max_handled: None }
}

#[test]
fn default_state_has_documented_modes() {
    let state: StreamState = Default::default();
    assert_eq!(state.handle_count, 0);
    assert_eq!(state.processing_mode.request_header_mode, HeaderSendMode::Send);
    assert_eq!(state.processing_mode.response_header_mode, HeaderSendMode::Send);
    assert_eq!(state.processing_mode.request_body_mode, BodySendMode::Buffered);
    assert_eq!(state.processing_mode.response_body_mode, BodySendMode::Buffered);
    assert_eq!(state.processing_mode.request_trailer_mode, HeaderSendMode::Skip);
    assert_eq!(state.processing_mode.response_trailer_mode, HeaderSendMode::Skip);
}

#[test]
fn unspecified_override_resolves_to_documented_defaults() {
    let mut state: StreamState = Default::default();
    state.set_request_header_mode(HeaderSendMode::Skip);
    state.set_response_header_mode(HeaderSendMode::Skip);
    state.set_request_trailer_mode(HeaderSendMode::Send);
    state.set_response_trailer_mode(HeaderSendMode::Send);
    state.apply_override(&unspecified_mode());
    assert_eq!(state.processing_mode.request_header_mode, HeaderSendMode::Send);
    assert_eq!(state.processing_mode.response_header_mode, HeaderSendMode::Send);
    assert_eq!(state.processing_mode.request_trailer_mode, HeaderSendMode::Skip);
    assert_eq!(state.processing_mode.response_trailer_mode, HeaderSendMode::Skip);
}

#[test]
fn explicit_override_applies_verbatim() {
    let mut state: StreamState = Default::default();
    let delta = ProcessingMode {
        request_header_mode: HeaderSendMode::Skip,
        response_header_mode: HeaderSendMode::Send,
        request_body_mode: BodySendMode::Omit,
        response_body_mode: BodySendMode::Buffered,
        request_trailer_mode: HeaderSendMode::Send,
        response_trailer_mode: HeaderSendMode::Skip,
    };
    state.apply_override(&delta);
    assert_eq!(state.processing_mode, delta);
}

#[test]
fn body_override_field_applies_verbatim_even_when_unset() {
    let mut state: StreamState = Default::default();
    assert_eq!(state.processing_mode.request_body_mode, BodySendMode::Buffered);
    state.apply_override(&unspecified_mode());
    assert_eq!(state.processing_mode.request_body_mode, BodySendMode::Omit);
    assert_eq!(state.processing_mode.response_body_mode, BodySendMode::Omit);
}

#[test]
fn setters_resolve_each_field() {
    let mut state: StreamState = Default::default();
    state.set_request_header_mode(HeaderSendMode::Unspecified);
    assert_eq!(state.processing_mode.request_header_mode, HeaderSendMode::Send);
    state.set_request_header_mode(HeaderSendMode::Skip);
    assert_eq!(state.processing_mode.request_header_mode, HeaderSendMode::Skip);
    state.set_request_trailer_mode(HeaderSendMode::Unspecified);
    assert_eq!(state.processing_mode.request_trailer_mode, HeaderSendMode::Skip);
    state.set_request_trailer_mode(HeaderSendMode::Send);
    assert_eq!(state.processing_mode.request_trailer_mode, HeaderSendMode::Send);
}

#[test]
fn body_phase_not_sent_when_fixture_body_empty() {
    let stream = ClientStream::new(fixture(Vec::new(), Vec::new()), reuse_forever());
    assert!(stream.should_send(Phase::RequestHeaders));
    assert!(!stream.should_send(Phase::RequestBody));
    assert!(!stream.should_send(Phase::ResponseBody));
}

#[test]
fn body_phase_not_sent_when_mode_omits_it() {
    let mut stream = ClientStream::new(fixture(vec![1], vec![2]), reuse_forever());
    assert!(stream.should_send(Phase::RequestBody));
    stream.state.processing_mode.request_body_mode = BodySendMode::Omit;
    assert!(!stream.should_send(Phase::RequestBody));
}

#[test]
fn two_phase_transaction_on_empty_bodies() {
    let responder = ExtProcService::new(default_mode());
    let mut stream = ClientStream::new(fixture(Vec::new(), Vec::new()), reuse_forever());
    stream.start_stream();
    let sent = stream.handle_stream(&responder).unwrap();
    assert_eq!(sent, vec![Phase::RequestHeaders, Phase::ResponseHeaders]);
    assert_eq!(stream.state.handle_count, 1);
}

#[test]
fn four_phase_transaction_with_bodies() {
    let responder = ExtProcService::new(default_mode());
    let mut stream = ClientStream::new(fixture(vec![1, 2], vec![3]), reuse_forever());
    stream.start_stream();
    let sent = stream.handle_stream(&responder).unwrap();
    assert_eq!(
        sent,
        vec![Phase::RequestHeaders, Phase::RequestBody, Phase::ResponseHeaders, Phase::ResponseBody]
    );
}

#[test]
fn override_mid_transaction_affects_later_phases() {
    let mut configured = default_mode();
    configured.response_header_mode = HeaderSendMode::Skip;
    configured.response_body_mode = BodySendMode::Omit;
    let responder = ExtProcService::new(configured);
    let mut stream = ClientStream::new(fixture(Vec::new(), vec![9]), reuse_forever());
    stream.start_stream();
    let sent = stream.handle_stream(&responder).unwrap();
    assert_eq!(sent, vec![Phase::RequestHeaders]);
    assert_eq!(stream.state.processing_mode.response_header_mode, HeaderSendMode::Skip);
}

#[test]
fn sent_phases_are_in_canonical_order() {
    let responder = ExtProcService::new(default_mode());
    let mut stream = ClientStream::new(fixture(vec![1], vec![2]), reuse_forever());
    stream.start_stream();
    let sent = stream.handle_stream(&responder).unwrap();
    let rank = |p: &Phase| match p {
        Phase::RequestHeaders => 0,
        Phase::RequestBody => 1,
        Phase::ResponseHeaders => 2,
        Phase::ResponseBody => 3,
    };
    for pair in sent.windows(2) {
        assert!(rank(&pair[0]) < rank(&pair[1]));
    }
}

#[test]
fn end_of_stream_marks_last_phase_of_each_direction() {
    let stream = ClientStream::new(fixture(vec![1], Vec::new()), reuse_forever());
    assert!(!stream.end_of_stream_for(Phase::RequestHeaders));
    assert!(stream.end_of_stream_for(Phase::RequestBody));
    assert!(stream.end_of_stream_for(Phase::ResponseHeaders));
}

#[test]
fn end_of_stream_on_headers_when_mode_omits_present_body() {
    let mut stream = ClientStream::new(fixture(vec![1], Vec::new()), reuse_forever());
    stream.state.processing_mode.request_body_mode = BodySendMode::Omit;
    assert!(stream.end_of_stream_for(Phase::RequestHeaders));
}

#[test]
fn build_message_lowercases_header_keys() {
    let data = DummyData::assemble(
        DummyDataConfig {
            request_headers: vec![("Host".to_string(), "Example.COM".to_string())],
            request_body_filename: String::new(),
            response_status: 200,
            response_headers: Vec::new(),
            response_body_filename: String::new(),
        },
        Vec::new(),
        Vec::new(),
    );
    let stream = ClientStream::new(data, reuse_forever());
    let msg = stream.build_message(Phase::RequestHeaders);
    match msg.request {
        Some(Request::RequestHeaders(h)) => {
            assert!(h.end_of_stream);
            let hm = h.headers.unwrap();
            assert_eq!(hm.headers.len(), 1);
            assert_eq!(hm.headers[0].key, "host");
            assert_eq!(hm.headers[0].value, "Example.COM");
        },
        _ => panic!("expected a request-headers message"),
    }
}

#[test]
fn build_message_takes_each_body_from_its_own_direction() {
    let stream = ClientStream::new(fixture(vec![1, 2], vec![3, 4, 5]), reuse_forever());
    match stream.build_message(Phase::RequestBody).request {
        Some(Request::RequestBody(b)) => {
            assert_eq!(b.body, vec![1, 2]);
            assert!(b.end_of_stream);
        },
        _ => panic!("expected a request-body message"),
    }
    match stream.build_message(Phase::ResponseBody).request {
        Some(Request::ResponseBody(b)) => {
            assert_eq!(b.body, vec![3, 4, 5]);
            assert!(b.end_of_stream);
        },
        _ => panic!("expected a response-body message"),
    }
}

#[test]
fn responder_answers_each_phase_with_continue() {
    let responder = ExtProcService::new(default_mode());
    let stream = ClientStream::new(fixture(vec![1], vec![2]), reuse_forever());
    for phase in [
        Phase::RequestHeaders,
        Phase::RequestBody,
        Phase::ResponseHeaders,
        Phase::ResponseBody,
    ] {
        let reply = responder.process(&stream.build_message(phase));
        assert_eq!(reply.mode_override, Some(default_mode()));
        let verdict = reply.response.unwrap();
        let common = match (phase, verdict) {
            (Phase::RequestHeaders, Response::RequestHeaders(h)) => h.response.unwrap(),
            (Phase::RequestBody, Response::RequestBody(b)) => b.response.unwrap(),
            (Phase::ResponseHeaders, Response::ResponseHeaders(h)) => h.response.unwrap(),
            (Phase::ResponseBody, Response::ResponseBody(b)) => b.response.unwrap(),
            _ => panic!("verdict kind does not match the phase"),
        };
        assert_eq!(common.status, ResponseStatus::Continue);
        assert!(!common.clear_route_cache);
    }
}

#[test]
fn responder_terminates_trailer_phase_with_invalid_argument() {
    let responder = ExtProcService::new(default_mode());
    let msg = ProcessingRequest {
        async_mode: false,
        request: Some(Request::RequestTrailers(HttpTrailers { trailers: None })),
    };
    let reply = responder.process(&msg);
    match reply.response {
        Some(Response::ImmediateResponse(im)) => {
            assert_eq!(im.grpc_status, Some(GrpcStatus { status: 3 }));
            assert!(im.body.is_empty());
            assert!(im.details.is_empty());
        },
        _ => panic!("expected an immediate-terminate verdict"),
    }
}

#[test]
fn responder_terminates_empty_message_with_invalid_argument() {
    let responder = ExtProcService::new(default_mode());
    let reply = responder.process(&ProcessingRequest { async_mode: false, request: None });
    assert!(matches!(reply.response, Some(Response::ImmediateResponse(_))));
}

#[test]
fn driver_records_peer_reported_failure_on_immediate_verdict() {
    let responder = ExtProcService::new(default_mode());
    let msg = ProcessingRequest {
        async_mode: false,
        request: Some(Request::ResponseTrailers(HttpTrailers { trailers: None })),
    };
    let reply = responder.process(&msg);
    let mut stream = ClientStream::new(fixture(Vec::new(), Vec::new()), reuse_forever());
    stream.start_stream();
    let result = stream.process_single_response(Some(&reply));
    match result {
        Err(StreamHandleError::ResponseError(status)) => {
            assert_eq!(status, Some(GrpcStatus { status: 3 }));
        },
        _ => panic!("expected a peer-reported failure"),
    }
}

#[test]
fn driver_reports_closed_stream_when_no_reply_comes() {
    let mut stream = ClientStream::new(fixture(Vec::new(), Vec::new()), reuse_forever());
    stream.start_stream();
    assert!(matches!(
        stream.process_single_response(None),
        Err(StreamHandleError::StreamClosed)
    ));
}

#[test]
fn reply_override_is_applied_at_once() {
    let mut stream = ClientStream::new(fixture(Vec::new(), Vec::new()), reuse_forever());
    stream.start_stream();
    let mut delta = unspecified_mode();
    delta.response_header_mode = HeaderSendMode::Skip;
    let reply = ProcessingResponse { mode_override: Some(delta), response: None };
    assert!(stream.process_single_response(Some(&reply)).is_ok());
    assert_eq!(stream.state.processing_mode.response_header_mode, HeaderSendMode::Skip);
    assert_eq!(stream.state.processing_mode.request_header_mode, HeaderSendMode::Send);
}

#[test]
fn release_tears_down_after_every_transaction_without_reuse() {
    let responder = ExtProcService::new(default_mode());
    let mut stream = ClientStream::new(
        fixture(Vec::new(), Vec::new()),
        Config { reuse_stream: false, max_handled: None },
    );
    for _ in 0..3 {
        stream.start_stream();
        assert!(stream.is_connected());
        stream.handle_stream(&responder).unwrap();
        stream.finish_stream();
        assert!(!stream.is_connected());
        assert_eq!(stream.state.handle_count, 1);
    }
}

#[test]
fn release_honors_transaction_cap_with_reuse() {
    let responder = ExtProcService::new(default_mode());
    let mut stream = ClientStream::new(
        fixture(Vec::new(), Vec::new()),
        Config { reuse_stream: true, max_handled: Some(3) },
    );
    stream.start_stream();
    for expected in 1..=2 {
        stream.handle_stream(&responder).unwrap();
        stream.finish_stream();
        assert!(stream.is_connected());
        assert_eq!(stream.state.handle_count, expected);
    }
    stream.handle_stream(&responder).unwrap();
    stream.finish_stream();
    assert!(!stream.is_connected());
    assert_eq!(stream.state.handle_count, 3);
}

#[test]
fn release_is_idempotent() {
    let mut stream = ClientStream::new(
        fixture(Vec::new(), Vec::new()),
        Config { reuse_stream: false, max_handled: None },
    );
    stream.start_stream();
    stream.finish_stream();
    assert!(!stream.is_connected());
    stream.finish_stream();
    assert!(!stream.is_connected());
}

#[test]
fn establish_resets_state_only_on_a_fresh_connection() {
    let responder = ExtProcService::new(default_mode());
    let mut stream = ClientStream::new(fixture(Vec::new(), Vec::new()), reuse_forever());
    stream.start_stream();
    stream.handle_stream(&responder).unwrap();
    stream.start_stream();
    assert_eq!(stream.state.handle_count, 1);
    stream.on_stream_lost();
    stream.start_stream();
    assert_eq!(stream.state.handle_count, 0);
}

#[test]
fn fixture_assembly_keeps_every_field() {
    let data = fixture(vec![7], vec![8, 9]);
    assert_eq!(data.req_headers, vec![("host".to_string(), "example.com".to_string())]);
    assert_eq!(data.req_body, vec![7]);
    assert_eq!(data.resp_status, 200);
    assert_eq!(data.resp_headers, vec![("content-type".to_string(), "text/html".to_string())]);
    assert_eq!(data.resp_body, vec![8, 9]);
}

#[test]
fn empty_body_filename_means_no_file_read() {
    assert!(!body_file_needed(""));
    assert!(body_file_needed("bench/fixtures/simple_response.html"));
}
