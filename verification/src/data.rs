//! The immutable per-process fixture: header lists, body bytes and response
//! status, assembled once before any worker starts and shared read-only.

use vstd::prelude::*;

verus! {

/// The fixture as configured: header pairs, optional body file names and the
/// response status. An empty file name means no body for that direction.
pub struct DummyDataConfig {
    pub request_headers: Vec<(String, String)>,
    pub request_body_filename: String,
    pub response_status: u32,
    pub response_headers: Vec<(String, String)>,
    pub response_body_filename: String,
}

/// The loaded fixture: the payload of every phase a driver may send.
pub struct DummyData {
    pub req_headers: Vec<(String, String)>,
    pub req_body: Vec<u8>,
    pub resp_status: u32,
    pub resp_headers: Vec<(String, String)>,
    pub resp_body: Vec<u8>,
}

/// Whether a configured body file name calls for a file read: an empty name
/// means no body for that direction.
pub fn body_file_needed(filename: &str) -> (r: bool)
    ensures
        r == (filename@.len() != 0),
{
    !filename.is_empty()
}

impl DummyData {
    /// Assembles the fixture from its parsed configuration and the body bytes
    /// the caller read from the configured files; an absent body is an empty
    /// byte vector.
    pub fn assemble(config: DummyDataConfig, req_body: Vec<u8>, resp_body: Vec<u8>) -> (d:
        DummyData)
        ensures
            d.req_headers == config.request_headers,
            d.req_body == req_body,
            d.resp_status == config.response_status,
            d.resp_headers == config.response_headers,
            d.resp_body == resp_body,
    {
        DummyData {
            req_headers: config.request_headers,
            req_body,
            resp_status: config.response_status,
            resp_headers: config.response_headers,
            resp_body,
        }
    }
}

} // verus!
