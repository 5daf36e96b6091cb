//! The fixture responder: classifies every inbound phase message and replies
//! with a continue verdict that carries the configured processing mode as an
//! override. It is stateless per connection; all stateful tracking lives in
//! the driver.

use vstd::prelude::*;

use crate::message::{
    BodyResponse, CommonResponse, GrpcStatus, HeadersResponse, ImmediateResponse,
    ProcessingRequest, ProcessingResponse, Request, Response, ResponseStatus,
};
use crate::mode::ProcessingMode;
use crate::INVALID_ARGUMENT_CODE;

verus! {

/// The "continue, no mutation" verdict body.
pub open spec fn spec_continue_verdict() -> CommonResponse {
    CommonResponse { status: ResponseStatus::Continue, clear_route_cache: false }
}

/// How the responder answers one phase payload: each supported phase gets a
/// continue verdict of its own kind; anything else (trailers, or a message
/// with no payload) gets an immediate-terminate verdict carrying an
/// invalid-argument signal.
pub open spec fn spec_verdict_matches(request: Option<Request>, v: Response) -> bool {
    match request {
        Some(Request::RequestHeaders(_)) => v matches Response::RequestHeaders(h)
            && h.response == Some(spec_continue_verdict()),
        Some(Request::ResponseHeaders(_)) => v matches Response::ResponseHeaders(h)
            && h.response == Some(spec_continue_verdict()),
        Some(Request::RequestBody(_)) => v matches Response::RequestBody(b) && b.response
            == Some(spec_continue_verdict()),
        Some(Request::ResponseBody(_)) => v matches Response::ResponseBody(b) && b.response
            == Some(spec_continue_verdict()),
        _ => v matches Response::ImmediateResponse(im) && im.grpc_status == Some(
            (GrpcStatus { status: INVALID_ARGUMENT_CODE }),
        ) && im.body@.len() == 0 && im.details@.len() == 0,
    }
}

/// The server-side service: one configured processing mode, shared by every
/// reply it gives.
pub struct ExtProcService {
    pub processing_mode: ProcessingMode,
}

impl ExtProcService {
    pub fn new(processing_mode: ProcessingMode) -> (s: ExtProcService)
        ensures
            s.processing_mode == processing_mode,
    {
        ExtProcService { processing_mode }
    }

    /// A fresh reply carrying the configured mode as an override and no
    /// verdict yet.
    pub fn init_response(processing_mode: &ProcessingMode) -> (r: ProcessingResponse)
        ensures
            r.mode_override == Some(*processing_mode),
            r.response is None,
    {
        ProcessingResponse { mode_override: Some(*processing_mode), response: None }
    }

    /// One step of the responder: classify the inbound message and reply with
    /// the matching verdict, always carrying the configured mode override.
    pub fn process(&self, request: &ProcessingRequest) -> (r: ProcessingResponse)
        ensures
            r.mode_override == Some(self.processing_mode),
            r.response matches Some(v) && spec_verdict_matches(request.request, v),
    {
        let mut response = Self::init_response(&self.processing_mode);
        handle_request(request, &mut response);
        response
    }
}

/// Fills in the verdict for one inbound message: a continue verdict of the
/// matching kind for every supported phase, an immediate-terminate verdict
/// with an invalid-argument signal for anything else.
pub fn handle_request(request: &ProcessingRequest, response: &mut ProcessingResponse)
    ensures
        final(response).mode_override == old(response).mode_override,
        final(response).response matches Some(v) && spec_verdict_matches(request.request, v),
{
    match &request.request {
        Some(Request::RequestHeaders(_)) => {
            response.response = Some(
                Response::RequestHeaders(HeadersResponse { response: Some(empty_response()) }),
            );
        },
        Some(Request::ResponseHeaders(_)) => {
            response.response = Some(
                Response::ResponseHeaders(HeadersResponse { response: Some(empty_response()) }),
            );
        },
        Some(Request::RequestBody(_)) => {
            response.response = Some(
                Response::RequestBody(BodyResponse { response: Some(empty_response()) }),
            );
        },
        Some(Request::ResponseBody(_)) => {
            response.response = Some(
                Response::ResponseBody(BodyResponse { response: Some(empty_response()) }),
            );
        },
        _ => {
            response.response = Some(
                Response::ImmediateResponse(
                    ImmediateResponse {
                        body: String::new(),
                        grpc_status: Some(GrpcStatus { status: INVALID_ARGUMENT_CODE }),
                        details: String::new(),
                    },
                ),
            );
        },
    }
}

/// The plain continue verdict that mutates nothing.
pub fn empty_response() -> (r: CommonResponse)
    ensures
        r == spec_continue_verdict(),
{
    CommonResponse { status: ResponseStatus::Continue, clear_route_cache: false }
}

} // verus!
