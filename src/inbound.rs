//! The inbound request, as read from the web framework or from a raw socket.
use vstd::prelude::*;
use vstd::utf8::{valid_utf8, decode_utf8};
use crate::method::{Method, MethodView, method_of_token};
use crate::text::{
    line_at, line_end, is_line_start, crlf_at, has_prefix_ci, skip_ws, word_end, trim, chars_of,
    string_from_chars, find_line_end, find_non_ws, find_ws, starts_with_ci, trimmed,
};

verus! {

/// The request a client sent, reduced to what is forwarded.
#[derive(Debug)]
pub struct InboundRequest {
    pub method: Method,
    /// The path to request upstream; in raw mode it also holds the query.
    pub target_path: String,
    pub query: Option<String>,
    pub authorization: Option<String>,
    /// The `If-None-Match` value.
    pub cache_validator: Option<String>,
    pub body: Vec<u8>,
}

pub struct InboundView {
    pub method: MethodView,
    pub target_path: Seq<char>,
    pub query: Option<Seq<char>>,
    pub authorization: Option<Seq<char>>,
    pub cache_validator: Option<Seq<char>>,
    pub body: Seq<u8>,
}

pub open spec fn opt_text(o: Option<String>) -> Option<Seq<char>> {
    match o {
        Some(s) => Some(s@),
        None => None,
    }
}

impl View for InboundRequest {
    type V = InboundView;

    open spec fn view(&self) -> InboundView {
        InboundView {
            method: self.method@,
            target_path: self.target_path@,
            query: opt_text(self.query),
            authorization: opt_text(self.authorization),
            cache_validator: opt_text(self.cache_validator),
            body: self.body@,
        }
    }
}

/// Why a raw request is not forwarded.
#[derive(Clone, Copy, Debug, PartialEq, Eq, Structural)]
pub enum RawRejection {
    /// Nothing usable was read: the connection is closed without an answer.
    Abandon,
    /// The request line holds fewer than two words.
    BadRequest,
    /// The method is not one of the five forwarded ones.
    MethodNotAllowed,
}

/// The prefix of an authorization header line, compared without ASCII case.
pub open spec fn authorization_prefix() -> Seq<char> {
    "authorization:"@
}

/// The prefix of a cache-validator header line, compared without ASCII case.
pub open spec fn if_none_match_prefix() -> Seq<char> {
    "if-none-match:"@
}

/// The line at `p` is a header line (not the request line) that begins with `name`.
pub open spec fn header_line(t: Seq<char>, name: Seq<char>, p: int) -> bool {
    0 < p && is_line_start(t, p) && has_prefix_ci(line_at(t, p), name)
}

/// The line at `p` is the first header line that begins with `name`.
pub open spec fn first_header_line(t: Seq<char>, name: Seq<char>, p: int) -> bool {
    header_line(t, name, p) && forall|q: int| 0 < q < p ==> !#[trigger] header_line(t, name, q)
}

/// The trimmed rest of the first header line that begins with `name`, if any.
pub open spec fn header_value(t: Seq<char>, name: Seq<char>) -> Option<Seq<char>> {
    if exists|p: int| header_line(t, name, p) {
        let p = choose|p: int| first_header_line(t, name, p);
        Some(trim(line_at(t, p).skip(name.len() as int)))
    } else {
        None
    }
}

/// The first two whitespace-separated words of a line, if it has two.
pub open spec fn first_two_words(l: Seq<char>) -> Option<(Seq<char>, Seq<char>)> {
    let a = skip_ws(l, 0);
    let b = word_end(l, a);
    let c = skip_ws(l, b);
    let d = word_end(l, c);
    if a == l.len() || c == l.len() {
        None
    } else {
        Some((l.subrange(a, b), l.subrange(c, d)))
    }
}

/// A blank line (`\r\n\r\n`) starts at byte `i`.
pub open spec fn blank_line_at(b: Seq<u8>, i: int) -> bool {
    0 <= i && i + 4 <= b.len() && b[i] == 13 && b[i + 1] == 10 && b[i + 2] == 13 && b[i + 3]
        == 10
}

/// Where the body starts: after the first blank line at or after `i`, or at the end.
pub open spec fn body_start(b: Seq<u8>, i: int) -> int
    decreases b.len() - i,
{
    if i < 0 || i + 4 > b.len() {
        b.len() as int
    } else if blank_line_at(b, i) {
        i + 4
    } else {
        body_start(b, i + 1)
    }
}

/// The bytes that follow the first blank line (none if there is no blank line).
pub open spec fn body_after_blank_line(b: Seq<u8>) -> Seq<u8> {
    b.subrange(body_start(b, 0), b.len() as int)
}

/// What a raw request buffer, read in one go, amounts to.
pub open spec fn raw_request(buf: Seq<u8>) -> Result<InboundView, RawRejection> {
    if buf.len() == 0 || !valid_utf8(buf) {
        Err(RawRejection::Abandon)
    } else {
        let t = decode_utf8(buf);
        match first_two_words(line_at(t, 0)) {
            None => Err(RawRejection::BadRequest),
            Some(words) => {
                let method = method_of_token(words.0);
                if !method.is_supported() {
                    Err(RawRejection::MethodNotAllowed)
                } else {
                    Ok(
                        InboundView {
                            method,
                            target_path: words.1,
                            query: None,
                            authorization: header_value(t, authorization_prefix()),
                            cache_validator: header_value(t, if_none_match_prefix()),
                            body: if method.is_get() {
                                Seq::empty()
                            } else {
                                body_after_blank_line(buf)
                            },
                        },
                    )
                }
            },
        }
    }
}

/// Relies on `std::str::from_utf8`: text exactly when the bytes are valid UTF-8.
#[verifier::external_body]
fn decode_text(b: &[u8]) -> (r: Option<String>)
    ensures
        r is Some <==> valid_utf8(b@),
        r matches Some(s) ==> s@ == decode_utf8(b@),
{
    std::str::from_utf8(b).ok().map(|s| s.to_string())
}

/// The value of the first header line of `t` that begins with `name`.
fn find_header(t: &[char], name: &[char]) -> (r: Option<String>)
    ensures
        opt_text(r) == header_value(t@, name@),
{
    let e0 = find_line_end(t, 0);
    if e0 == t.len() {
        assert forall|q: int| !header_line(t@, name@, q) by {
            if header_line(t@, name@, q) {
                assert(crlf_at(t@, q - 2));
            }
        }
        return None;
    }
    let mut p: usize = e0 + 2;
    assert forall|q: int| 0 < q < p implies !header_line(t@, name@, q) by {
        if header_line(t@, name@, q) {
            assert(crlf_at(t@, q - 2));
        }
    }
    loop
        invariant
            2 <= p <= t@.len(),
            is_line_start(t@, p as int),
            forall|q: int| 0 < q < p ==> !#[trigger] header_line(t@, name@, q),
        decreases t@.len() - p,
    {
        let e = find_line_end(t, p);
        if starts_with_ci(t, p, e, name) {
            assert(header_line(t@, name@, p as int));
            assert(first_header_line(t@, name@, p as int));
            let v = trimmed(&t[p + name.len()..e]);
            proof {
                let c = choose|c: int| first_header_line(t@, name@, c);
                assert(first_header_line(t@, name@, c));
                assert(c == p as int) by {
                    if c < p {
                        assert(!header_line(t@, name@, c));
                    }
                    if c > p {
                        assert(!header_line(t@, name@, p as int));
                    }
                }
                assert(line_at(t@, p as int).skip(name@.len() as int) =~= t@.subrange(
                    p + name@.len(),
                    e as int,
                ));
            }
            return Some(v);
        }
        assert(!header_line(t@, name@, p as int));
        if e == t.len() {
            assert forall|q: int| !header_line(t@, name@, q) by {
                if header_line(t@, name@, q) && q > p {
                    assert(crlf_at(t@, q - 2));
                    if q - 2 < p {
                        assert(crlf_at(t@, p - 2));
                    }
                }
            }
            return None;
        }
        let p_old = p;
        p = e + 2;
        assert forall|q: int| 0 < q < p implies !header_line(t@, name@, q) by {
            if header_line(t@, name@, q) && q > p_old {
                assert(crlf_at(t@, q - 2));
                if q - 2 < p_old {
                    assert(crlf_at(t@, p_old - 2));
                }
            }
        }
    }
}

/// Where the body of the buffer starts.
fn find_body_start(b: &[u8]) -> (r: usize)
    ensures
        r == body_start(b@, 0),
        r <= b@.len(),
{
    let mut i: usize = 0;
    while i < b.len() && b.len() - i >= 4
        invariant
            0 <= i <= b@.len(),
            body_start(b@, 0) == body_start(b@, i as int),
        decreases b.len() - i,
    {
        if b[i] == 13 && b[i + 1] == 10 && b[i + 2] == 13 && b[i + 3] == 10 {
            return i + 4;
        }
        i = i + 1;
    }
    b.len()
}

/// The bytes that follow the first `\r\n\r\n` of the buffer.
fn bytes_after_blank_line(b: &[u8]) -> (r: Vec<u8>)
    ensures
        r@ == body_after_blank_line(b@),
{
    let start = find_body_start(b);
    let mut out: Vec<u8> = Vec::new();
    let mut k: usize = start;
    while k < b.len()
        invariant
            start <= k <= b@.len(),
            out@ == b@.subrange(start as int, k as int),
        decreases b.len() - k,
    {
        out.push(b[k]);
        assert(b@.subrange(start as int, k + 1) == b@.subrange(start as int, k as int).push(
            b@[k as int],
        ));
        k = k + 1;
    }
    out
}

/// The path prefix under which the framework routes requests to the proxy.
pub open spec fn route_prefix() -> Seq<char> {
    "/v1/"@
}

/// The request that the framework handed over: the path after the route
/// prefix, the raw query string (empty when there is none), the two relayed
/// headers and the body.
pub open spec fn framework_request(
    method: MethodView,
    tail: Seq<char>,
    query: Seq<char>,
    authorization: Option<Seq<char>>,
    cache_validator: Option<Seq<char>>,
    body: Seq<u8>,
) -> InboundView {
    InboundView {
        method,
        target_path: route_prefix() + tail,
        query: if query.len() == 0 {
            None
        } else {
            Some(query)
        },
        authorization,
        cache_validator,
        body,
    }
}

impl InboundRequest {
    /// Builds the request from what the web framework parsed.
    pub fn from_framework(
        method: Method,
        tail: &str,
        query: &str,
        authorization: Option<String>,
        cache_validator: Option<String>,
        body: Vec<u8>,
    ) -> (r: InboundRequest)
        ensures
            r@ == framework_request(
                method@,
                tail@,
                query@,
                opt_text(authorization),
                opt_text(cache_validator),
                body@,
            ),
    {
        let mut target_path = String::from_str("/v1/");
        target_path.append(tail);
        let query = if query.is_empty() {
            None
        } else {
            Some(String::from_str(query))
        };
        InboundRequest { method, target_path, query, authorization, cache_validator, body }
    }

    /// Reads a request from the bytes of one socket read.
    ///
    /// Empty or non-UTF-8 input is abandoned; a request line with fewer than
    /// two words is a bad request; a method other than GET, POST, PUT, DELETE
    /// and PATCH is not allowed. Otherwise the path is the second word, the
    /// authorization and cache-validator values come from the first matching
    /// header lines, and a non-GET request carries the bytes after the first
    /// blank line as its body.
    pub fn parse_raw(buf: &[u8]) -> (r: Result<InboundRequest, RawRejection>)
        ensures
            match raw_request(buf@) {
                Ok(v) => r matches Ok(req) && req@ == v,
                Err(e) => r matches Err(x) && x == e,
            },
    {
        if buf.len() == 0 {
            return Err(RawRejection::Abandon);
        }
        let text = match decode_text(buf) {
            None => {
                return Err(RawRejection::Abandon);
            },
            Some(s) => s,
        };
        let t = chars_of(text.as_str());
        let e0 = find_line_end(t.as_slice(), 0);
        let first = &t.as_slice()[0..e0];
        assert(first@ == line_at(t@, 0));
        let a = find_non_ws(first, 0);
        if a == first.len() {
            return Err(RawRejection::BadRequest);
        }
        let b = find_ws(first, a);
        let c = find_non_ws(first, b);
        if c == first.len() {
            return Err(RawRejection::BadRequest);
        }
        let d = find_ws(first, c);
        let method = Method::from_token(&first[a..b]);
        if !method.is_supported() {
            return Err(RawRejection::MethodNotAllowed);
        }
        let target_path = string_from_chars(&first[c..d]);
        let auth_prefix = chars_of("authorization:");
        let inm_prefix = chars_of("if-none-match:");
        let authorization = find_header(t.as_slice(), auth_prefix.as_slice());
        let cache_validator = find_header(t.as_slice(), inm_prefix.as_slice());
        let body = if method.is_get() {
            Vec::new()
        } else {
            bytes_after_blank_line(buf)
        };
        Ok(
            InboundRequest {
                method,
                target_path,
                query: None,
                authorization,
                cache_validator,
                body,
            },
        )
    }
}

} // verus!
