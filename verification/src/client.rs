//! The stream driver: owns one logical bidirectional exchange, sequences
//! phase sends in strict canonical order, applies each reply's mode override
//! before the next send, and is reusable across transactions per policy.

use vstd::prelude::*;

use crate::data::DummyData;
use crate::message::{
    lower_of, make_header_map, copy_bytes, phase_at, phase_of_rank, rank_of, GrpcStatus,
    HttpBody, HttpHeaders, Phase, ProcessingRequest, ProcessingResponse, Request, Response,
};
use crate::mode::{
    spec_initial_mode, spec_resolve_header, spec_resolve_override, spec_resolve_trailer,
    BodySendMode, HeaderSendMode, ProcessingMode,
};
use crate::server::ExtProcService;

verus! {

/// Connection-reuse policy: whether a released connection may survive, and an
/// optional cap on the transactions one connection handles.
#[derive(Clone, Copy, Debug)]
pub struct Config {
    pub reuse_stream: bool,
    pub max_handled: Option<usize>,
}

/// Per-connection driver state: the active processing mode and the count of
/// transactions the connection has completed. Reset to defaults whenever a
/// connection is (re)established.
#[derive(Clone, Copy, Debug, PartialEq, Eq, Structural)]
pub struct StreamState {
    pub processing_mode: ProcessingMode,
    pub handle_count: usize,
}

impl StreamState {
    /// The state a fresh connection starts from.
    pub open spec fn spec_default() -> StreamState {
        StreamState { processing_mode: spec_initial_mode(), handle_count: 0 }
    }

    /// Applies the request-header field of an override: unspecified resolves
    /// to `Send`, anything explicit stands.
    pub fn set_request_header_mode(&mut self, mode: HeaderSendMode)
        ensures
            final(self).processing_mode == (ProcessingMode {
                request_header_mode: spec_resolve_header(mode),
                ..old(self).processing_mode
            }),
            final(self).handle_count == old(self).handle_count,
    {
        if matches!(mode, HeaderSendMode::Unspecified) {
            self.processing_mode.request_header_mode = HeaderSendMode::Send;
        } else {
            self.processing_mode.request_header_mode = mode;
        }
    }

    /// Applies the response-header field of an override: unspecified resolves
    /// to `Send`, anything explicit stands.
    pub fn set_response_header_mode(&mut self, mode: HeaderSendMode)
        ensures
            final(self).processing_mode == (ProcessingMode {
                response_header_mode: spec_resolve_header(mode),
                ..old(self).processing_mode
            }),
            final(self).handle_count == old(self).handle_count,
    {
        if matches!(mode, HeaderSendMode::Unspecified) {
            self.processing_mode.response_header_mode = HeaderSendMode::Send;
        } else {
            self.processing_mode.response_header_mode = mode;
        }
    }

    /// Applies the request-trailer field of an override: unspecified resolves
    /// to `Skip`, anything explicit stands.
    pub fn set_request_trailer_mode(&mut self, mode: HeaderSendMode)
        ensures
            final(self).processing_mode == (ProcessingMode {
                request_trailer_mode: spec_resolve_trailer(mode),
                ..old(self).processing_mode
            }),
            final(self).handle_count == old(self).handle_count,
    {
        if matches!(mode, HeaderSendMode::Unspecified) {
            self.processing_mode.request_trailer_mode = HeaderSendMode::Skip;
        } else {
            self.processing_mode.request_trailer_mode = mode;
        }
    }

    /// Applies the response-trailer field of an override: unspecified resolves
    /// to `Skip`, anything explicit stands.
    pub fn set_response_trailer_mode(&mut self, mode: HeaderSendMode)
        ensures
            final(self).processing_mode == (ProcessingMode {
                response_trailer_mode: spec_resolve_trailer(mode),
                ..old(self).processing_mode
            }),
            final(self).handle_count == old(self).handle_count,
    {
        if matches!(mode, HeaderSendMode::Unspecified) {
            self.processing_mode.response_trailer_mode = HeaderSendMode::Skip;
        } else {
            self.processing_mode.response_trailer_mode = mode;
        }
    }

    /// Merges a whole override into the state: header and trailer fields
    /// resolve their unspecified values to the field's default, body fields
    /// apply verbatim.
    pub fn apply_override(&mut self, delta: &ProcessingMode)
        ensures
            final(self).processing_mode == spec_resolve_override(*delta),
            final(self).handle_count == old(self).handle_count,
    {
        self.set_request_header_mode(delta.request_header_mode);
        self.set_response_header_mode(delta.response_header_mode);
        self.processing_mode.request_body_mode = delta.request_body_mode;
        self.processing_mode.response_body_mode = delta.response_body_mode;
        self.set_request_trailer_mode(delta.request_trailer_mode);
        self.set_response_trailer_mode(delta.response_trailer_mode);
    }
}

impl Default for StreamState {
    /// The state a fresh connection starts from.
    fn default() -> (s: Self)
        ensures
            s == StreamState::spec_default(),
    {
        StreamState { processing_mode: ProcessingMode::initial(), handle_count: 0 }
    }
}

/// What can end a transaction early: the payload could not be handed to the
/// channel, the peer reported a failure in an explicit verdict, or the reply
/// channel ended without a verdict.
#[derive(Debug)]
pub enum StreamHandleError {
    RequestSendError,
    ResponseError(Option<GrpcStatus>),
    StreamClosed,
}

/// Whether a phase is transmitted under a mode: its flag must permit it and,
/// for a body phase, the fixture must have content for that direction.
pub open spec fn spec_should_send(
    m: ProcessingMode,
    req_body_empty: bool,
    resp_body_empty: bool,
    p: Phase,
) -> bool {
    match p {
        Phase::RequestHeaders => !(m.request_header_mode is Skip),
        Phase::RequestBody => m.request_body_mode is Buffered && !req_body_empty,
        Phase::ResponseHeaders => !(m.response_header_mode is Skip),
        Phase::ResponseBody => m.response_body_mode is Buffered && !resp_body_empty,
    }
}

/// Whether a phase carries the end-of-stream marker: it goes on the phase
/// that is actually last of its direction in the effective sequence, not on
/// the canonical final phase of the direction.
pub open spec fn spec_end_of_stream(
    m: ProcessingMode,
    req_body_empty: bool,
    resp_body_empty: bool,
    p: Phase,
) -> bool {
    match p {
        Phase::RequestHeaders => !spec_should_send(m, req_body_empty, resp_body_empty,
            Phase::RequestBody),
        Phase::RequestBody => true,
        Phase::ResponseHeaders => !spec_should_send(m, req_body_empty, resp_body_empty,
            Phase::ResponseBody),
        Phase::ResponseBody => true,
    }
}

/// The phases a transaction sends, from `rank` on: a phase is included when
/// the mode current at that point permits it, and after every included phase
/// the mode becomes `resolved` — the effect of the reply's override, applied
/// before the next send.
pub open spec fn spec_phases_from(
    cur: ProcessingMode,
    resolved: ProcessingMode,
    req_body_empty: bool,
    resp_body_empty: bool,
    rank: int,
) -> Seq<Phase>
    decreases 4 - rank when rank <= 4
{
    if rank < 0 || rank >= 4 {
        Seq::empty()
    } else {
        let p = phase_of_rank(rank);
        if spec_should_send(cur, req_body_empty, resp_body_empty, p) {
            seq![p] + spec_phases_from(resolved, resolved, req_body_empty, resp_body_empty,
                rank + 1)
        } else {
            spec_phases_from(cur, resolved, req_body_empty, resp_body_empty, rank + 1)
        }
    }
}

/// The phases one whole transaction sends, when every reply carries
/// `override_mode` — what the fixture responder always does.
pub open spec fn spec_transaction(
    m0: ProcessingMode,
    override_mode: ProcessingMode,
    req_body_empty: bool,
    resp_body_empty: bool,
) -> Seq<Phase> {
    spec_phases_from(m0, spec_resolve_override(override_mode), req_body_empty, resp_body_empty, 0)
}

/// Whether releasing a connection tears it down: reuse disabled, or the
/// transaction cap reached.
pub open spec fn spec_teardown(config: Config, handled: usize) -> bool {
    !config.reuse_stream || (config.max_handled matches Some(max) && handled >= max)
}

/// A reply whose verdict is an immediate-terminate: the peer reports failure.
pub open spec fn spec_is_failure(resp: ProcessingResponse) -> bool {
    resp.response matches Some(Response::ImmediateResponse(_))
}

/// The gRPC status an immediate-terminate verdict carries.
pub open spec fn spec_failure_status(resp: ProcessingResponse) -> Option<GrpcStatus>
    recommends
        spec_is_failure(resp),
{
    match resp.response {
        Some(Response::ImmediateResponse(im)) => im.grpc_status,
        _ => None,
    }
}

/// A stream driver: the fixture it sends, the reuse policy, whether a logical
/// connection is open, and the per-connection state.
pub struct ClientStream {
    pub data: DummyData,
    pub config: Config,
    pub connected: bool,
    pub state: StreamState,
}

impl ClientStream {
    /// Whether a message is well-formed for a phase of this stream: not in
    /// async mode, tagged with the phase, headers lowercased, body bytes taken
    /// from the fixture's matching direction, and the end-of-stream marker on
    /// the phase that is actually last of its direction.
    pub open spec fn spec_message_matches(&self, phase: Phase, r: ProcessingRequest) -> bool {
        let req_e = self.data.req_body@.len() == 0;
        let resp_e = self.data.resp_body@.len() == 0;
        let eos = spec_end_of_stream(self.state.processing_mode, req_e, resp_e, phase);
        r.async_mode == false && match phase {
            Phase::RequestHeaders => {
                &&& r.request matches Some(Request::RequestHeaders(h))
                &&& h.end_of_stream == eos
                &&& h.headers matches Some(hm)
                &&& spec_headers_lowered(self.data.req_headers@, hm.headers@)
            },
            Phase::RequestBody => {
                &&& r.request matches Some(Request::RequestBody(b))
                &&& b.end_of_stream
                &&& b.body@ == self.data.req_body@
            },
            Phase::ResponseHeaders => {
                &&& r.request matches Some(Request::ResponseHeaders(h))
                &&& h.end_of_stream == eos
                &&& h.headers matches Some(hm)
                &&& spec_headers_lowered(self.data.resp_headers@, hm.headers@)
            },
            Phase::ResponseBody => {
                &&& r.request matches Some(Request::ResponseBody(b))
                &&& b.end_of_stream
                &&& b.body@ == self.data.resp_body@
            },
        }
    }

    pub fn new(data: DummyData, config: Config) -> (s: ClientStream)
        ensures
            s.data == data,
            s.config == config,
            !s.connected,
            s.state == StreamState::spec_default(),
    {
        ClientStream { data, config, connected: false, state: Default::default() }
    }

    pub fn is_connected(&self) -> (r: bool)
        ensures
            r == self.connected,
    {
        self.connected
    }

    /// Establishes the logical connection: a no-op on a healthy one;
    /// otherwise the caller has opened a fresh channel and the per-connection
    /// state resets to defaults.
    pub fn start_stream(&mut self)
        ensures
            final(self).connected,
            final(self).state == if old(self).connected {
                old(self).state
            } else {
                StreamState::spec_default()
            },
            final(self).data == old(self).data,
            final(self).config == old(self).config,
    {
        if !self.connected {
            self.connected = true;
            self.state = Default::default();
        }
    }

    /// The caller observed that the transport side of the channel is gone;
    /// the next establish opens a fresh one.
    pub fn on_stream_lost(&mut self)
        ensures
            !final(self).connected,
            final(self).state == old(self).state,
            final(self).data == old(self).data,
            final(self).config == old(self).config,
    {
        self.connected = false;
    }

    /// Whether a phase should be transmitted now: its mode flag permits it
    /// and, for a body phase, the fixture has content for that direction.
    pub fn should_send(&self, phase: Phase) -> (r: bool)
        ensures
            r == spec_should_send(
                self.state.processing_mode,
                self.data.req_body@.len() == 0,
                self.data.resp_body@.len() == 0,
                phase,
            ),
    {
        match phase {
            Phase::RequestHeaders => !matches!(
                self.state.processing_mode.request_header_mode,
                HeaderSendMode::Skip
            ),
            Phase::RequestBody => matches!(
                self.state.processing_mode.request_body_mode,
                BodySendMode::Buffered
            ) && self.data.req_body.len() > 0,
            Phase::ResponseHeaders => !matches!(
                self.state.processing_mode.response_header_mode,
                HeaderSendMode::Skip
            ),
            Phase::ResponseBody => matches!(
                self.state.processing_mode.response_body_mode,
                BodySendMode::Buffered
            ) && self.data.resp_body.len() > 0,
        }
    }

    /// Whether a phase carries the end-of-stream marker now.
    pub fn end_of_stream_for(&self, phase: Phase) -> (r: bool)
        ensures
            r == spec_end_of_stream(
                self.state.processing_mode,
                self.data.req_body@.len() == 0,
                self.data.resp_body@.len() == 0,
                phase,
            ),
    {
        match phase {
            Phase::RequestHeaders => !self.should_send(Phase::RequestBody),
            Phase::RequestBody => true,
            Phase::ResponseHeaders => !self.should_send(Phase::ResponseBody),
            Phase::ResponseBody => true,
        }
    }

    /// Builds the wire message for a phase from the fixture: header keys
    /// lowercased, body bytes copied from the matching direction, and the
    /// end-of-stream marker placed on the phase that is actually last of its
    /// direction.
    pub fn build_message(&self, phase: Phase) -> (r: ProcessingRequest)
        ensures
            self.spec_message_matches(phase, r),
    {
        let r: ProcessingRequest = match phase {
            Phase::RequestHeaders => ProcessingRequest {
                async_mode: false,
                request: Some(
                    Request::RequestHeaders(
                        HttpHeaders {
                            headers: Some(make_header_map(&self.data.req_headers)),
                            end_of_stream: self.end_of_stream_for(Phase::RequestHeaders),
                        },
                    ),
                ),
            },
            Phase::RequestBody => ProcessingRequest {
                async_mode: false,
                request: Some(
                    Request::RequestBody(
                        HttpBody { body: copy_bytes(&self.data.req_body), end_of_stream: true },
                    ),
                ),
            },
            Phase::ResponseHeaders => ProcessingRequest {
                async_mode: false,
                request: Some(
                    Request::ResponseHeaders(
                        HttpHeaders {
                            headers: Some(make_header_map(&self.data.resp_headers)),
                            end_of_stream: self.end_of_stream_for(Phase::ResponseHeaders),
                        },
                    ),
                ),
            },
            Phase::ResponseBody => ProcessingRequest {
                async_mode: false,
                request: Some(
                    Request::ResponseBody(
                        HttpBody { body: copy_bytes(&self.data.resp_body), end_of_stream: true },
                    ),
                ),
            },
        };
        assert(self.spec_message_matches(phase, r));
        r
    }

    /// Consumes one reply. No reply at all means the peer closed the stream.
    /// An immediate-terminate verdict is a peer-reported failure and leaves
    /// the state as it was. Any other reply succeeds, and its override — if
    /// one is carried — is applied to the mode at once, so later phases of
    /// the same transaction see it.
    pub fn process_single_response(&mut self, response: Option<&ProcessingResponse>) -> (r: Result<
        (),
        StreamHandleError,
    >)
        ensures
            final(self).data == old(self).data,
            final(self).config == old(self).config,
            final(self).connected == old(self).connected,
            final(self).state.handle_count == old(self).state.handle_count,
            match response {
                None => r matches Err(StreamHandleError::StreamClosed) && final(self).state == old(
                    self,
                ).state,
                Some(resp) => {
                    if spec_is_failure(*resp) {
                        r matches Err(StreamHandleError::ResponseError(st)) && st
                            == spec_failure_status(*resp) && final(self).state == old(self).state
                    } else {
                        r is Ok && final(self).state.processing_mode == (
                        match resp.mode_override {
                            Some(delta) => spec_resolve_override(delta),
                            None => old(self).state.processing_mode,
                        })
                    }
                },
            },
    {
        match response {
            None => Err(StreamHandleError::StreamClosed),
            Some(resp) => {
                match &resp.response {
                    Some(Response::ImmediateResponse(im)) => Err(
                        StreamHandleError::ResponseError(im.grpc_status),
                    ),
                    _ => {
                        match &resp.mode_override {
                            Some(delta) => self.state.apply_override(delta),
                            None => (),
                        }
                        Ok(())
                    },
                }
            },
        }
    }

    /// Drives one transaction against the fixture responder: for each
    /// non-skipped phase in canonical order, send the payload, consume the
    /// one reply and apply its override before the next send; on completion
    /// the transaction counter increments. Returns the phases sent. With the
    /// fixture responder every reply is a continue verdict, so the
    /// transaction always completes.
    pub fn handle_stream(&mut self, responder: &ExtProcService) -> (r: Result<
        Vec<Phase>,
        StreamHandleError,
    >)
        requires
            old(self).connected,
            old(self).state.handle_count < usize::MAX,
        ensures
            final(self).data == old(self).data,
            final(self).config == old(self).config,
            final(self).connected,
            final(self).state.handle_count == old(self).state.handle_count + 1,
            r matches Ok(sent) && sent@ == spec_transaction(
                old(self).state.processing_mode,
                responder.processing_mode,
                old(self).data.req_body@.len() == 0,
                old(self).data.resp_body@.len() == 0,
            ),
            final(self).state.processing_mode == if spec_transaction(
                old(self).state.processing_mode,
                responder.processing_mode,
                old(self).data.req_body@.len() == 0,
                old(self).data.resp_body@.len() == 0,
            ).len() > 0 {
                spec_resolve_override(responder.processing_mode)
            } else {
                old(self).state.processing_mode
            },
    {
        let ghost m0 = self.state.processing_mode;
        let ghost resolved = spec_resolve_override(responder.processing_mode);
        let ghost req_e = self.data.req_body@.len() == 0;
        let ghost resp_e = self.data.resp_body@.len() == 0;
        let ghost total = spec_transaction(m0, responder.processing_mode, req_e, resp_e);
        let mut sent: Vec<Phase> = Vec::new();
        let mut rank: u8 = 0;
        while rank < 4
            invariant
                rank <= 4,
                self.connected == old(self).connected,
                self.data == old(self).data,
                self.config == old(self).config,
                self.state.handle_count == old(self).state.handle_count,
                old(self).connected,
                old(self).state.handle_count < usize::MAX,
                m0 == old(self).state.processing_mode,
                resolved == spec_resolve_override(responder.processing_mode),
                req_e == (self.data.req_body@.len() == 0),
                resp_e == (self.data.resp_body@.len() == 0),
                total == spec_transaction(m0, responder.processing_mode, req_e, resp_e),
                sent@.len() == 0 ==> self.state.processing_mode == m0,
                sent@.len() > 0 ==> self.state.processing_mode == resolved,
                sent@ + spec_phases_from(
                    self.state.processing_mode,
                    resolved,
                    req_e,
                    resp_e,
                    rank as int,
                ) == total,
            decreases 4 - rank,
    {
            let phase = phase_at(rank);
            if self.should_send(phase) {
                let ghost cur = self.state.processing_mode;
                proof {
                    assert(spec_phases_from(cur, resolved, req_e, resp_e, rank as int)
                        == seq![phase] + spec_phases_from(resolved, resolved, req_e, resp_e,
                        rank as int + 1));
                }
                let msg = self.build_message(phase);
                let reply = responder.process(&msg);
                sent.push(phase);
                match self.process_single_response(Some(&reply)) {
                    Ok(()) => (),
                    Err(e) => {
                        return Err(e);
                    },
                }
                proof {
                    assert(sent@ + spec_phases_from(resolved, resolved, req_e, resp_e,
                        rank as int + 1) =~= total);
                }
            }
            rank = rank + 1;
        }
        proof {
            assert(spec_phases_from(self.state.processing_mode, resolved, req_e, resp_e, 4)
                =~= Seq::<Phase>::empty());
            assert(sent@ =~= total);
        }
        self.state.handle_count = self.state.handle_count + 1;
        Ok(sent)
    }

    /// Marks one more transaction complete on this connection. The in-library
    /// driver counts on its own; a caller that drives the phases itself over a
    /// real transport counts through this.
    pub fn complete_transaction(&mut self)
        requires
            old(self).state.handle_count < usize::MAX,
        ensures
            final(self).data == old(self).data,
            final(self).config == old(self).config,
            final(self).connected == old(self).connected,
            final(self).state.processing_mode == old(self).state.processing_mode,
            final(self).state.handle_count == old(self).state.handle_count + 1,
    {
        self.state.handle_count = self.state.handle_count + 1;
    }

    /// Releases the connection: tears it down when reuse is disabled or the
    /// transaction cap is reached, otherwise leaves it open. Idempotent —
    /// releasing an already torn-down connection changes nothing.
    pub fn finish_stream(&mut self)
        ensures
            final(self).data == old(self).data,
            final(self).config == old(self).config,
            final(self).state == old(self).state,
            final(self).connected == (old(self).connected && !spec_teardown(
                old(self).config,
                old(self).state.handle_count,
            )),
    {
        let cap_reached = match self.config.max_handled {
            Some(max) => self.state.handle_count >= max,
            None => false,
        };
        if !self.config.reuse_stream || cap_reached {
            self.connected = false;
        }
    }
}

/// A header list as it goes on the wire: one entry per fixture pair, the key
/// lowercased, the value kept as it is.
pub open spec fn spec_headers_lowered(
    src: Seq<(String, String)>,
    out: Seq<crate::message::HeaderValue>,
) -> bool {
    out.len() == src.len() && forall|i: int|
        0 <= i < src.len() ==> #[trigger] out[i].key@ == lower_of(src[i].0@) && out[i].value@
            == src[i].1@
}

/// With reuse disabled, release tears the connection down after every
/// transaction, whatever the transaction count says.
pub proof fn lemma_no_reuse_always_tears_down(config: Config, handled: usize)
    requires
        !config.reuse_stream,
    ensures
        spec_teardown(config, handled),
{
}

/// A body phase is never sent when the fixture's body for that direction is
/// empty, whatever the mode flags say.
pub proof fn lemma_empty_body_never_sent(m: ProcessingMode, req_body_empty: bool,
    resp_body_empty: bool)
    ensures
        req_body_empty ==> !spec_should_send(m, req_body_empty, resp_body_empty,
            Phase::RequestBody),
        resp_body_empty ==> !spec_should_send(m, req_body_empty, resp_body_empty,
            Phase::ResponseBody),
{
}

/// The phases of any transaction form a subsequence of the canonical order
/// request headers, request body, response headers, response body: their
/// ranks are strictly increasing, and each is one of the four.
pub proof fn lemma_transaction_phases_increasing(
    m0: ProcessingMode,
    override_mode: ProcessingMode,
    req_body_empty: bool,
    resp_body_empty: bool,
)
    ensures
        forall|i: int, j: int|
            0 <= i < j < spec_transaction(m0, override_mode, req_body_empty,
                resp_body_empty).len() ==> rank_of(
                #[trigger] spec_transaction(m0, override_mode, req_body_empty, resp_body_empty)[i],
            ) < rank_of(
                #[trigger] spec_transaction(m0, override_mode, req_body_empty, resp_body_empty)[j],
            ),
        forall|i: int|
            0 <= i < spec_transaction(m0, override_mode, req_body_empty, resp_body_empty).len()
                ==> 0 <= rank_of(
                #[trigger] spec_transaction(m0, override_mode, req_body_empty, resp_body_empty)[i],
            ) < 4,
{
    lemma_phases_from_increasing(m0, spec_resolve_override(override_mode), req_body_empty,
        resp_body_empty, 0);
}

proof fn lemma_phases_from_increasing(
    cur: ProcessingMode,
    resolved: ProcessingMode,
    req_body_empty: bool,
    resp_body_empty: bool,
    rank: int,
)
    requires
        0 <= rank <= 4,
    ensures
        forall|i: int|
            0 <= i < spec_phases_from(cur, resolved, req_body_empty, resp_body_empty, rank).len()
                ==> rank <= rank_of(
                #[trigger] spec_phases_from(cur, resolved, req_body_empty, resp_body_empty,
                    rank)[i],
            ) < 4,
        forall|i: int, j: int|
            0 <= i < j < spec_phases_from(cur, resolved, req_body_empty, resp_body_empty,
                rank).len() ==> rank_of(
                #[trigger] spec_phases_from(cur, resolved, req_body_empty, resp_body_empty,
                    rank)[i],
            ) < rank_of(
                #[trigger] spec_phases_from(cur, resolved, req_body_empty, resp_body_empty,
                    rank)[j],
            ),
    decreases 4 - rank,
{
    if rank < 4 {
        lemma_phases_from_increasing(resolved, resolved, req_body_empty, resp_body_empty,
            rank + 1);
        lemma_phases_from_increasing(cur, resolved, req_body_empty, resp_body_empty, rank + 1);
        let s = spec_phases_from(cur, resolved, req_body_empty, resp_body_empty, rank);
        let p = phase_of_rank(rank);
        if spec_should_send(cur, req_body_empty, resp_body_empty, p) {
            let rest = spec_phases_from(resolved, resolved, req_body_empty, resp_body_empty,
                rank + 1);
            assert(s == seq![p] + rest);
            assert(rank_of(s[0]) == rank);
            assert forall|i: int| 0 <= i < s.len() implies rank <= rank_of(#[trigger] s[i])
                < 4 by {
                if i > 0 {
                    assert(s[i] == rest[i - 1]);
                }
            }
            assert forall|i: int, j: int| 0 <= i < j < s.len() implies rank_of(
                #[trigger] s[i],
            ) < rank_of(#[trigger] s[j]) by {
                assert(s[j] == rest[j - 1]);
                if i > 0 {
                    assert(s[i] == rest[i - 1]);
                }
            }
        } else {
            let rest = spec_phases_from(cur, resolved, req_body_empty, resp_body_empty, rank + 1);
            assert(s == rest);
            assert forall|i: int| 0 <= i < s.len() implies rank <= rank_of(#[trigger] s[i])
                < 4 by {
                assert(s[i] == rest[i]);
            }
            assert forall|i: int, j: int| 0 <= i < j < s.len() implies rank_of(
                #[trigger] s[i],
            ) < rank_of(#[trigger] s[j]) by {
                assert(s[i] == rest[i]);
                assert(s[j] == rest[j]);
            }
        }
    }
}

} // verus!
