//! Processing-mode state: the six per-phase send flags and the resolution of
//! partial overrides carried in peer replies.

use vstd::prelude::*;

verus! {

/// Send policy for a header or trailer phase, as carried in a mode override.
/// `Unspecified` is the wire default of the field and must be resolved to a
/// phase-specific default before use: headers default to `Send`, trailers to
/// `Skip`.
#[derive(Clone, Copy, Debug, PartialEq, Eq, Structural)]
pub enum HeaderSendMode {
    Unspecified,
    Send,
    Skip,
}

/// Send policy for a body phase. The wire default of the field is `Omit`,
/// and body overrides are applied verbatim: an unset body field suppresses
/// the body phase.
#[derive(Clone, Copy, Debug, PartialEq, Eq, Structural)]
pub enum BodySendMode {
    Omit,
    Buffered,
}

/// The six per-phase send flags that govern which phases a driver transmits.
#[derive(Clone, Copy, Debug, PartialEq, Eq, Structural)]
pub struct ProcessingMode {
    pub request_header_mode: HeaderSendMode,
    pub response_header_mode: HeaderSendMode,
    pub request_body_mode: BodySendMode,
    pub response_body_mode: BodySendMode,
    pub request_trailer_mode: HeaderSendMode,
    pub response_trailer_mode: HeaderSendMode,
}

/// An unspecified header field resolves to `Send`; anything explicit stands.
pub open spec fn spec_resolve_header(m: HeaderSendMode) -> HeaderSendMode {
    if m is Unspecified {
        HeaderSendMode::Send
    } else {
        m
    }
}

/// An unspecified trailer field resolves to `Skip`; anything explicit stands.
pub open spec fn spec_resolve_trailer(m: HeaderSendMode) -> HeaderSendMode {
    if m is Unspecified {
        HeaderSendMode::Skip
    } else {
        m
    }
}

/// The mode that results from applying an override: header and trailer
/// fields resolve their unspecified values to the field's default, body
/// fields apply verbatim. The result does not depend on the mode the
/// override is applied to.
pub open spec fn spec_resolve_override(delta: ProcessingMode) -> ProcessingMode {
    ProcessingMode {
        request_header_mode: spec_resolve_header(delta.request_header_mode),
        response_header_mode: spec_resolve_header(delta.response_header_mode),
        request_body_mode: delta.request_body_mode,
        response_body_mode: delta.response_body_mode,
        request_trailer_mode: spec_resolve_trailer(delta.request_trailer_mode),
        response_trailer_mode: spec_resolve_trailer(delta.response_trailer_mode),
    }
}

/// The mode a fresh connection starts from: headers sent, bodies buffered,
/// trailers skipped.
pub open spec fn spec_initial_mode() -> ProcessingMode {
    ProcessingMode {
        request_header_mode: HeaderSendMode::Send,
        response_header_mode: HeaderSendMode::Send,
        request_body_mode: BodySendMode::Buffered,
        response_body_mode: BodySendMode::Buffered,
        request_trailer_mode: HeaderSendMode::Skip,
        response_trailer_mode: HeaderSendMode::Skip,
    }
}

impl ProcessingMode {
    /// The mode a fresh connection starts from.
    pub fn initial() -> (m: ProcessingMode)
        ensures
            m == spec_initial_mode(),
    {
        ProcessingMode {
            request_header_mode: HeaderSendMode::Send,
            response_header_mode: HeaderSendMode::Send,
            request_body_mode: BodySendMode::Buffered,
            response_body_mode: BodySendMode::Buffered,
            request_trailer_mode: HeaderSendMode::Skip,
            response_trailer_mode: HeaderSendMode::Skip,
        }
    }
}

} // verus!
