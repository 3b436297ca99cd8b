//! The per-request decision: given the requested path and the outcome of the
//! single fetch against the storage backend, assemble the HTTP answer.  A
//! successful fetch is served as-is under the resolved content type; every
//! failure collapses to one uniform not-found answer, so no backend error
//! detail ever reaches the caller.

use vstd::prelude::*;
use vstd::string::StringSliceAdditionalSpecFns;

use crate::content_type::{determine_content_type, spec_resolve, Headers};

verus! {

/// What the single fetch against the storage backend came back with: the
/// object's bytes with the backend's status code and headers, or a failure
/// whose detail is kept for diagnostics only.
pub enum FetchOutcome {
    Fetched { bytes: Vec<u8>, status_code: u16, headers: Headers },
    Failed { detail: String },
}

/// The HTTP answer the gateway sends: a status, a content type, and the raw
/// body bytes.
pub struct GatewayResponse {
    pub status: u16,
    pub content_type: String,
    pub body: Vec<u8>,
}

/// Assembles the gateway's answer for one request.  A fetched object is
/// served unmodified with status 200 under the resolved content type; any
/// failure becomes status 404 with the fixed plain-text body, whatever the
/// path and whatever went wrong.
pub fn respond(file_path: &str, outcome: FetchOutcome) -> (r: GatewayResponse)
    ensures
        outcome matches FetchOutcome::Fetched { bytes, headers, .. } ==> r.status == 200
            && r.content_type@ == spec_resolve(file_path@, Some(headers@)) && r.body@ == bytes@,
        outcome is Failed ==> r.status == 404 && r.content_type@
            == "text/plain; charset=utf-8"@ && r.body@ == "File not found".spec_bytes(),
{
    match outcome {
        FetchOutcome::Fetched { bytes, status_code: _, headers } => {
            let content_type = determine_content_type(file_path, Some(&headers));
            GatewayResponse { status: 200, content_type, body: bytes }
        },
        FetchOutcome::Failed { detail: _ } => GatewayResponse {
            status: 404,
            content_type: String::from_str("text/plain; charset=utf-8"),
            body: "File not found".as_bytes_vec(),
        },
    }
}

} // verus!
