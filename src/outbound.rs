//! The request sent upstream.
use vstd::prelude::*;
use crate::method::{Method, MethodView};
use crate::inbound::{InboundRequest, InboundView, opt_text};
use crate::user_agent::{choose_user_agent, user_agent_pool};

verus! {

/// One header of the outbound request.
#[derive(Clone, Debug, PartialEq, Eq)]
pub struct Header {
    pub name: String,
    pub value: String,
}

/// The request to send to the upstream host.
#[derive(Debug)]
pub struct OutboundRequest {
    pub url: String,
    pub method: Method,
    /// In the order in which they are set.
    pub headers: Vec<Header>,
    /// Present exactly when the method is not GET.
    pub body: Option<Vec<u8>>,
}

pub struct OutboundView {
    pub url: Seq<char>,
    pub method: MethodView,
    pub headers: Seq<(Seq<char>, Seq<char>)>,
    pub body: Option<Seq<u8>>,
}

pub open spec fn header_view(h: Header) -> (Seq<char>, Seq<char>) {
    (h.name@, h.value@)
}

pub open spec fn headers_view(hs: Seq<Header>) -> Seq<(Seq<char>, Seq<char>)> {
    hs.map_values(|h: Header| header_view(h))
}

pub open spec fn opt_bytes(b: Option<Vec<u8>>) -> Option<Seq<u8>> {
    match b {
        Some(v) => Some(v@),
        None => None,
    }
}

impl View for OutboundRequest {
    type V = OutboundView;

    open spec fn view(&self) -> OutboundView {
        OutboundView {
            url: self.url@,
            method: self.method@,
            headers: headers_view(self.headers@),
            body: opt_bytes(self.body),
        }
    }
}

/// The scheme and host of the upstream API.
pub open spec fn upstream_base() -> Seq<char> {
    "https://api.spotify.com"@
}

/// The upstream URL for a path and an optional query.
pub open spec fn upstream_url(path: Seq<char>, query: Option<Seq<char>>) -> Seq<char> {
    match query {
        Some(q) => upstream_base() + path + seq!['?'] + q,
        None => upstream_base() + path,
    }
}

pub open spec fn user_agent_name() -> Seq<char> {
    "User-Agent"@
}

pub open spec fn authorization_name() -> Seq<char> {
    "Authorization"@
}

pub open spec fn if_none_match_name() -> Seq<char> {
    "If-None-Match"@
}

/// `(name, value)` as a header list when the value is present.
pub open spec fn optional_header(name: Seq<char>, value: Option<Seq<char>>) -> Seq<
    (Seq<char>, Seq<char>),
> {
    match value {
        Some(v) => seq![(name, v)],
        None => Seq::empty(),
    }
}

/// The outbound headers: User-Agent always, then Authorization and
/// If-None-Match when the inbound request had them.
pub open spec fn outbound_headers(
    user_agent: Seq<char>,
    authorization: Option<Seq<char>>,
    cache_validator: Option<Seq<char>>,
) -> Seq<(Seq<char>, Seq<char>)> {
    seq![(user_agent_name(), user_agent)] + optional_header(authorization_name(), authorization)
        + optional_header(if_none_match_name(), cache_validator)
}

/// The outbound request for an inbound one and a chosen User-Agent.
pub open spec fn outbound_of(r: InboundView, user_agent: Seq<char>) -> OutboundView {
    OutboundView {
        url: upstream_url(r.target_path, r.query),
        method: r.method,
        headers: outbound_headers(user_agent, r.authorization, r.cache_validator),
        body: if r.method.is_get() {
            None
        } else {
            Some(r.body)
        },
    }
}

fn push_optional_header(headers: &mut Vec<Header>, name: &str, value: Option<String>)
    ensures
        headers_view(final(headers)@) == headers_view(old(headers)@) + optional_header(
            name@,
            opt_text(value),
        ),
{
    proof {
        broadcast use vstd::seq_lib::group_seq_properties;
    }
    let ghost before = headers@;
    match value {
        Some(v) => {
            headers.push(Header { name: String::from_str(name), value: v });
            assert(headers_view(headers@) =~= headers_view(before) + optional_header(
                name@,
                opt_text(value),
            ));
        },
        None => {
            assert(headers_view(before) + optional_header(name@, opt_text(value)) =~= headers_view(
                before,
            ));
        },
    }
}

/// Builds the upstream request: the URL is the upstream base, the path and,
/// when there is one, `?` and the query.
pub fn build_outbound(inbound: InboundRequest, user_agent: String) -> (r: OutboundRequest)
    ensures
        r@ == outbound_of(inbound@, user_agent@),
{
    let ghost v = inbound@;
    let InboundRequest { method, target_path, query, authorization, cache_validator, body } =
        inbound;
    let mut url = String::from_str("https://api.spotify.com");
    url.append(target_path.as_str());
    match query {
        Some(q) => {
            url.append("?");
            url.append(q.as_str());
            proof {
                reveal_strlit("?");
            }
            assert(url@ =~= upstream_url(v.target_path, v.query));
        },
        None => {},
    }
    let mut headers: Vec<Header> = Vec::new();
    headers.push(Header { name: String::from_str("User-Agent"), value: user_agent });
    assert(headers_view(headers@) =~= seq![(user_agent_name(), user_agent@)]);
    push_optional_header(&mut headers, "Authorization", authorization);
    push_optional_header(&mut headers, "If-None-Match", cache_validator);
    let body = if method.is_get() {
        None
    } else {
        Some(body)
    };
    let r = OutboundRequest { url, method, headers, body };
    assert(r@.headers =~= outbound_of(v, user_agent@).headers);
    r
}

/// Draws a User-Agent from the pool and builds the upstream request with it.
pub fn prepare_outbound(inbound: InboundRequest) -> (r: OutboundRequest)
    ensures
        r@.headers.len() >= 1,
        user_agent_pool().contains(r@.headers[0].1),
        r@ == outbound_of(inbound@, r@.headers[0].1),
{
    let ua = choose_user_agent();
    let r = build_outbound(inbound, ua);
    assert(r@.headers[0].1 == ua@);
    r
}

} // verus!
