//! The phase-tagged messages a driver sends and the verdict messages a
//! responder returns, modelled as exhaustively matched tagged unions.

use vstd::prelude::*;

verus! {

/// One directional slice of an HTTP transaction, in canonical send order:
/// request headers, request body, response headers, response body.
#[derive(Clone, Copy, Debug, PartialEq, Eq, Structural)]
pub enum Phase {
    RequestHeaders,
    RequestBody,
    ResponseHeaders,
    ResponseBody,
}

/// The position of a phase in the canonical send order.
pub open spec fn rank_of(p: Phase) -> int {
    match p {
        Phase::RequestHeaders => 0,
        Phase::RequestBody => 1,
        Phase::ResponseHeaders => 2,
        Phase::ResponseBody => 3,
    }
}

/// The phase at a position of the canonical send order.
pub open spec fn phase_of_rank(r: int) -> Phase {
    if r == 0 {
        Phase::RequestHeaders
    } else if r == 1 {
        Phase::RequestBody
    } else if r == 2 {
        Phase::ResponseHeaders
    } else {
        Phase::ResponseBody
    }
}

/// The phase at a position of the canonical send order.
pub fn phase_at(rank: u8) -> (p: Phase)
    requires
        rank < 4,
    ensures
        p == phase_of_rank(rank as int),
{
    if rank == 0 {
        Phase::RequestHeaders
    } else if rank == 1 {
        Phase::RequestBody
    } else if rank == 2 {
        Phase::ResponseHeaders
    } else {
        Phase::ResponseBody
    }
}

/// One header name/value pair as it goes on the wire.
pub struct HeaderValue {
    pub key: String,
    pub value: String,
}

/// The header list of a headers phase.
pub struct HeaderMap {
    pub headers: Vec<HeaderValue>,
}

/// A headers-phase payload. The end-of-stream marker says that no phase of
/// the same direction follows.
pub struct HttpHeaders {
    pub headers: Option<HeaderMap>,
    pub end_of_stream: bool,
}

/// A body-phase payload.
pub struct HttpBody {
    pub body: Vec<u8>,
    pub end_of_stream: bool,
}

/// A trailers-phase payload. The driver never sends one; the responder
/// answers it with an immediate-terminate verdict.
pub struct HttpTrailers {
    pub trailers: Option<HeaderMap>,
}

/// The phase-tagged payload of one driver-to-responder message.
pub enum Request {
    RequestHeaders(HttpHeaders),
    RequestBody(HttpBody),
    ResponseHeaders(HttpHeaders),
    ResponseBody(HttpBody),
    RequestTrailers(HttpTrailers),
    ResponseTrailers(HttpTrailers),
}

/// One driver-to-responder message.
pub struct ProcessingRequest {
    pub async_mode: bool,
    pub request: Option<Request>,
}

/// The verdict a responder gives on one phase.
#[derive(Clone, Copy, Debug, PartialEq, Eq, Structural)]
pub enum ResponseStatus {
    Continue,
    ContinueAndReplace,
}

/// The common part of a continue verdict.
#[derive(Clone, Copy, Debug, PartialEq, Eq, Structural)]
pub struct CommonResponse {
    pub status: ResponseStatus,
    pub clear_route_cache: bool,
}

/// A verdict on a headers phase.
#[derive(Clone, Copy, Debug, PartialEq, Eq, Structural)]
pub struct HeadersResponse {
    pub response: Option<CommonResponse>,
}

/// A verdict on a body phase.
#[derive(Clone, Copy, Debug, PartialEq, Eq, Structural)]
pub struct BodyResponse {
    pub response: Option<CommonResponse>,
}

/// A gRPC status code carried in an immediate-terminate verdict.
#[derive(Clone, Copy, Debug, PartialEq, Eq, Structural)]
pub struct GrpcStatus {
    pub status: u32,
}

/// A verdict that tells the driver the peer rejected the message and the
/// exchange is over.
pub struct ImmediateResponse {
    pub body: String,
    pub grpc_status: Option<GrpcStatus>,
    pub details: String,
}

/// The phase-tagged payload of one responder-to-driver message.
pub enum Response {
    RequestHeaders(HeadersResponse),
    ResponseHeaders(HeadersResponse),
    RequestBody(BodyResponse),
    ResponseBody(BodyResponse),
    ImmediateResponse(ImmediateResponse),
}

/// One responder-to-driver message: a verdict, optionally overriding the
/// driver's processing mode.
pub struct ProcessingResponse {
    pub mode_override: Option<crate::mode::ProcessingMode>,
    pub response: Option<Response>,
}

/// What `str::to_lowercase` returns: a function of the characters alone.
pub uninterp spec fn lower_of(s: Seq<char>) -> Seq<char>;

/// Relies on `str::to_lowercase`: the result depends on the characters alone,
/// and an empty string stays empty.
#[verifier::external_body]
pub(crate) fn lowercase(s: &str) -> (r: String)
    ensures
        r@ == lower_of(s@),
        s@.len() == 0 ==> r@.len() == 0,
{
    s.to_lowercase()
}

/// Builds the wire header list from fixture pairs: each key is lowercased,
/// each value is kept as it is.
pub fn make_header_map(headers: &Vec<(String, String)>) -> (r: HeaderMap)
    ensures
        r.headers@.len() == headers@.len(),
        forall|i: int|
            0 <= i < headers@.len() ==> #[trigger] r.headers@[i].key@ == lower_of(headers@[i].0@)
                && r.headers@[i].value@ == headers@[i].1@,
{
    let mut out: Vec<HeaderValue> = Vec::new();
    let mut i: usize = 0;
    while i < headers.len()
        invariant
            i <= headers@.len(),
            out@.len() == i,
            forall|j: int|
                0 <= j < i ==> #[trigger] out@[j].key@ == lower_of(headers@[j].0@)
                    && out@[j].value@ == headers@[j].1@,
        decreases headers@.len() - i,
    {
        let pair = &headers[i];
        out.push(HeaderValue { key: lowercase(pair.0.as_str()), value: pair.1.clone() });
        i = i + 1;
    }
    HeaderMap { headers: out }
}

/// Copies body bytes for the wire.
pub fn copy_bytes(bytes: &Vec<u8>) -> (r: Vec<u8>)
    ensures
        r@ == bytes@,
{
    let mut out: Vec<u8> = Vec::new();
    let mut i: usize = 0;
    while i < bytes.len()
        invariant
            i <= bytes@.len(),
            out@ == bytes@.subrange(0, i as int),
        decreases bytes@.len() - i,
    {
        out.push(bytes[i]);
        proof {
            assert(out@ =~= bytes@.subrange(0, i + 1 as int));
        }
        i = i + 1;
    }
    proof {
        assert(out@ =~= bytes@);
    }
    out
}

} // verus!
