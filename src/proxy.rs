//! One request's way through the proxy, from what was read to what is
//! written back; the reads, the upstream call and the writes are the caller's.
use vstd::prelude::*;
use crate::inbound::{InboundRequest, RawRejection, raw_request};
use crate::outbound::{OutboundRequest, prepare_outbound, outbound_of};
use crate::relay::{
    ResponseHeader, UpstreamHead, DispatchError, response_headers_view, head_bytes,
    canonical_reason_of, bad_gateway_bytes, response_head, bad_gateway_response,
};
use crate::user_agent::user_agent_pool;

verus! {

/// The status of the answer when the upstream host could not be reached.
pub const BAD_GATEWAY: u16 = 502;

/// The body of the answer when the upstream host could not be reached.
pub open spec fn upstream_error_text() -> Seq<char> {
    "Upstream error"@
}

/// The upstream request for the bytes of one socket read, or why there is none.
pub fn forward_raw(buf: &[u8]) -> (r: Result<OutboundRequest, RawRejection>)
    ensures
        match raw_request(buf@) {
            Ok(v) => r matches Ok(out) && {
                &&& out@.headers.len() >= 1
                &&& user_agent_pool().contains(out@.headers[0].1)
                &&& out@ == outbound_of(v, out@.headers[0].1)
            },
            Err(e) => r matches Err(x) && x == e,
        },
{
    match InboundRequest::parse_raw(buf) {
        Ok(inbound) => Ok(prepare_outbound(inbound)),
        Err(e) => Err(e),
    }
}

/// What is written to a raw connection before the upstream body, and whether
/// that body follows.
#[derive(Debug)]
pub struct RawReply {
    pub head: Vec<u8>,
    pub stream_body: bool,
}

/// The raw answer to the upstream outcome: the 502 answer on failure, else
/// the response head, after which the upstream body is streamed.
pub fn raw_reply(upstream: &Result<UpstreamHead, DispatchError>) -> (r: RawReply)
    ensures
        match upstream {
            Ok(h) => r.stream_body && r.head@ == head_bytes(
                h.status,
                canonical_reason_of(h.status),
                response_headers_view(h.headers@),
            ),
            Err(_) => !r.stream_body && r.head@ == bad_gateway_bytes(),
        },
{
    match upstream {
        Ok(h) => RawReply { head: response_head(h.status, &h.headers), stream_body: true },
        Err(_) => RawReply { head: bad_gateway_response(), stream_body: false },
    }
}

/// The answer handed to the web framework: the status and headers, and a
/// fixed body when the upstream body is not streamed.
#[derive(Debug)]
pub struct FrameworkReply {
    pub status: u16,
    pub headers: Vec<ResponseHeader>,
    pub fixed_body: Option<String>,
}

/// The framework answer to the upstream outcome: on failure 502 with the body
/// `Upstream error` and no headers; else the upstream status and all its
/// headers, with the upstream body streamed after them.
pub fn framework_reply(upstream: Result<UpstreamHead, DispatchError>) -> (r: FrameworkReply)
    ensures
        match upstream {
            Ok(h) => r.status == h.status && r.headers@ == h.headers@ && r.fixed_body is None,
            Err(_) => {
                &&& r.status == BAD_GATEWAY
                &&& r.headers@.len() == 0
                &&& r.fixed_body matches Some(b) && b@ == upstream_error_text()
            },
        },
{
    match upstream {
        Ok(h) => FrameworkReply { status: h.status, headers: h.headers, fixed_body: None },
        Err(_) => FrameworkReply {
            status: BAD_GATEWAY,
            headers: Vec::new(),
            fixed_body: Some(String::from_str("Upstream error")),
        },
    }
}

} // verus!
