//! What the client receives: the upstream status and headers, or a fixed
//! answer when the request could not be forwarded.
use vstd::prelude::*;
use vstd::utf8::encode_utf8;
use crate::inbound::{RawRejection, opt_text};

verus! {

/// One header of the upstream response, as bytes.
#[derive(Clone, Debug, PartialEq, Eq)]
pub struct ResponseHeader {
    pub name: Vec<u8>,
    pub value: Vec<u8>,
}

pub open spec fn response_header_view(h: ResponseHeader) -> (Seq<u8>, Seq<u8>) {
    (h.name@, h.value@)
}

pub open spec fn response_headers_view(hs: Seq<ResponseHeader>) -> Seq<(Seq<u8>, Seq<u8>)> {
    hs.map_values(|h: ResponseHeader| response_header_view(h))
}

/// The status and headers of an upstream response; its body is streamed apart.
#[derive(Debug)]
pub struct UpstreamHead {
    pub status: u16,
    pub headers: Vec<ResponseHeader>,
}

/// The upstream host could not be reached or did not answer.
#[derive(Clone, Copy, Debug, PartialEq, Eq, Structural)]
pub struct DispatchError;

/// `c` equals the lower-case ASCII byte `d`, up to ASCII case.
pub open spec fn byte_ci_eq(c: u8, d: u8) -> bool {
    c == d || (0x41 <= c && c <= 0x5a && c + 32 == d)
}

/// `a` equals the lower-case ASCII text `b`, up to ASCII case.
pub open spec fn equals_ci(a: Seq<u8>, b: Seq<u8>) -> bool {
    a.len() == b.len() && forall|k: int| 0 <= k < a.len() ==> byte_ci_eq(#[trigger] a[k], b[k])
}

pub open spec fn content_length_name() -> Seq<u8> {
    encode_utf8("content-length"@)
}

pub open spec fn transfer_encoding_name() -> Seq<u8> {
    encode_utf8("transfer-encoding"@)
}

/// A header that frames the body on the wire, and so does not survive re-streaming.
pub open spec fn is_framing_name(n: Seq<u8>) -> bool {
    equals_ci(n, content_length_name()) || equals_ci(n, transfer_encoding_name())
}

pub open spec fn not_framing(h: (Seq<u8>, Seq<u8>)) -> bool {
    !is_framing_name(h.0)
}

/// The headers passed on to the client: in raw mode all but the framing
/// ones, in order; in framework mode all of them.
pub open spec fn relayed(hs: Seq<(Seq<u8>, Seq<u8>)>, raw: bool) -> Seq<(Seq<u8>, Seq<u8>)> {
    if raw {
        hs.filter(|h: (Seq<u8>, Seq<u8>)| not_framing(h))
    } else {
        hs
    }
}

pub open spec fn crlf() -> Seq<u8> {
    seq![13u8, 10u8]
}

/// The decimal digits of `n`, in ASCII.
pub open spec fn decimal(n: nat) -> Seq<u8>
    decreases n,
{
    if n < 10 {
        seq![(48 + n) as u8]
    } else {
        decimal(n / 10).push((48 + n % 10) as u8)
    }
}

/// The reason phrase, or `OK` when there is none.
pub open spec fn reason_or_ok(reason: Option<Seq<char>>) -> Seq<char> {
    match reason {
        Some(r) => r,
        None => "OK"@,
    }
}

pub open spec fn header_line_bytes(h: (Seq<u8>, Seq<u8>)) -> Seq<u8> {
    h.0 + encode_utf8(": "@) + h.1 + crlf()
}

/// The header lines, one after another.
pub open spec fn header_block(hs: Seq<(Seq<u8>, Seq<u8>)>) -> Seq<u8>
    decreases hs.len(),
{
    if hs.len() == 0 {
        Seq::empty()
    } else {
        header_block(hs.drop_last()) + header_line_bytes(hs.last())
    }
}

/// A raw HTTP/1.1 response head: the status line, the relayed headers and
/// the blank line.
pub open spec fn head_bytes(
    status: u16,
    reason: Option<Seq<char>>,
    headers: Seq<(Seq<u8>, Seq<u8>)>,
) -> Seq<u8> {
    encode_utf8("HTTP/1.1 "@) + decimal(status as nat) + encode_utf8(" "@) + encode_utf8(
        reason_or_ok(reason),
    ) + crlf() + header_block(relayed(headers, true)) + crlf()
}

/// The raw answer when the upstream host could not be reached.
pub open spec fn bad_gateway_bytes() -> Seq<u8> {
    encode_utf8("HTTP/1.1 502 Bad Gateway\r\n\r\nUpstream error"@)
}

/// The raw answer to a rejected request, if one is written at all.
pub open spec fn rejection_bytes(r: RawRejection) -> Option<Seq<u8>> {
    match r {
        RawRejection::Abandon => None,
        RawRejection::BadRequest => Some(encode_utf8("HTTP/1.1 400 Bad Request\r\n\r\n"@)),
        RawRejection::MethodNotAllowed => Some(
            encode_utf8("HTTP/1.1 405 Method Not Allowed\r\n\r\n"@),
        ),
    }
}

/// A name for what http's reason-phrase table gives for a status code.
pub uninterp spec fn canonical_reason_of(code: u16) -> Option<Seq<char>>;

/// Relies on http's `StatusCode::from_u16` and `StatusCode::canonical_reason`
/// (re-exported by reqwest): the registered reason phrase of the code, if
/// any. `from_u16` refuses codes below 100 or above 999, which then have none.
#[verifier::external_body]
fn canonical_reason(code: u16) -> (r: Option<String>)
    ensures
        opt_text(r) == canonical_reason_of(code),
        (code < 100 || code > 999) ==> r is None,
{
    reqwest::StatusCode::from_u16(code).ok().and_then(|s| s.canonical_reason()).map(
        |s| s.to_string(),
    )
}

fn append_bytes(out: &mut Vec<u8>, b: &[u8])
    ensures
        final(out)@ == old(out)@ + b@,
{
    let mut i: usize = 0;
    while i < b.len()
        invariant
            0 <= i <= b@.len(),
            out@ == old(out)@ + b@.subrange(0, i as int),
        decreases b.len() - i,
    {
        out.push(b[i]);
        assert(b@.subrange(0, i + 1) == b@.subrange(0, i as int).push(b@[i as int]));
        i = i + 1;
    }
    assert(b@.subrange(0, b@.len() as int) == b@);
}

fn append_decimal(out: &mut Vec<u8>, n: u16)
    ensures
        final(out)@ == old(out)@ + decimal(n as nat),
    decreases n,
{
    if n < 10 {
        out.push(48 + n as u8);
        assert(out@ =~= old(out)@ + decimal(n as nat));
    } else {
        append_decimal(out, n / 10);
        out.push(48 + (n % 10) as u8);
        assert(out@ =~= old(out)@ + decimal(n as nat));
    }
}

fn bytes_of(s: &str) -> (r: Vec<u8>)
    ensures
        r@ == encode_utf8(s@),
{
    let mut out: Vec<u8> = Vec::new();
    append_bytes(&mut out, s.as_bytes());
    assert(out@ =~= encode_utf8(s@));
    out
}

/// Whether a header name is `Content-Length` or `Transfer-Encoding`, in any ASCII case.
pub fn is_framing_header(name: &[u8]) -> (r: bool)
    ensures
        r == is_framing_name(name@),
{
    equal_ci(name, "content-length".as_bytes()) || equal_ci(name, "transfer-encoding".as_bytes())
}

fn equal_ci(a: &[u8], b: &[u8]) -> (r: bool)
    ensures
        r == equals_ci(a@, b@),
{
    if a.len() != b.len() {
        return false;
    }
    let mut k: usize = 0;
    while k < a.len()
        invariant
            a@.len() == b@.len(),
            0 <= k <= a@.len(),
            forall|m: int| 0 <= m < k ==> byte_ci_eq(#[trigger] a@[m], b@[m]),
        decreases a.len() - k,
    {
        let c = a[k];
        let d = b[k];
        if !(c == d || (0x41 <= c && c <= 0x5a && c + 32 == d)) {
            assert(!byte_ci_eq(a@[k as int], b@[k as int]));
            return false;
        }
        k = k + 1;
    }
    true
}

/// The headers to pass on to the client: in raw mode the framing headers
/// are left out, in framework mode all pass.
pub fn relayed_headers(headers: &Vec<ResponseHeader>, raw: bool) -> (r: Vec<ResponseHeader>)
    ensures
        response_headers_view(r@) == relayed(response_headers_view(headers@), raw),
{
    let ghost hv = response_headers_view(headers@);
    let mut out: Vec<ResponseHeader> = Vec::new();
    let mut i: usize = 0;
    while i < headers.len()
        invariant
            0 <= i <= headers@.len(),
            hv == response_headers_view(headers@),
            response_headers_view(out@) == relayed(hv.take(i as int), raw),
        decreases headers.len() - i,
    {
        let h = &headers[i];
        assert(hv.take(i + 1).drop_last() =~= hv.take(i as int));
        assert(hv.take(i + 1).last() == response_header_view(*h));
        let ghost before = response_headers_view(out@);
        let keep = !raw || !is_framing_header(h.name.as_slice());
        proof {
            broadcast use Seq::lemma_filter_push;

            assert(hv.take(i + 1) =~= hv.take(i as int).push(hv[i as int]));
        }
        if keep {
            let mut name: Vec<u8> = Vec::new();
            append_bytes(&mut name, h.name.as_slice());
            let mut value: Vec<u8> = Vec::new();
            append_bytes(&mut value, h.value.as_slice());
            assert(name@ =~= h.name@ && value@ =~= h.value@);
            out.push(ResponseHeader { name, value });
        }
        assert(response_headers_view(out@) =~= relayed(hv.take(i + 1), raw));
        i = i + 1;
    }
    assert(hv.take(headers@.len() as int) =~= hv);
    out
}

/// The raw response head for a status, a reason phrase (`OK` when there is
/// none) and the upstream headers, framing headers left out.
pub fn serialize_head(status: u16, reason: &Option<String>, headers: &Vec<ResponseHeader>) -> (r:
    Vec<u8>)
    ensures
        r@ == head_bytes(status, opt_text(*reason), response_headers_view(headers@)),
{
    let kept = relayed_headers(headers, true);
    let ghost kv = response_headers_view(kept@);
    let mut out: Vec<u8> = Vec::new();
    append_bytes(&mut out, "HTTP/1.1 ".as_bytes());
    append_decimal(&mut out, status);
    append_bytes(&mut out, " ".as_bytes());
    match reason {
        Some(s) => append_bytes(&mut out, s.as_str().as_bytes()),
        None => append_bytes(&mut out, "OK".as_bytes()),
    }
    out.push(13);
    out.push(10);
    let ghost start = out@;
    assert(start =~= encode_utf8("HTTP/1.1 "@) + decimal(status as nat) + encode_utf8(" "@)
        + encode_utf8(reason_or_ok(opt_text(*reason))) + crlf());
    let mut i: usize = 0;
    while i < kept.len()
        invariant
            0 <= i <= kept@.len(),
            kv == response_headers_view(kept@),
            out@ == start + header_block(kv.take(i as int)),
        decreases kept.len() - i,
    {
        let h = &kept[i];
        assert(kv.take(i + 1).drop_last() =~= kv.take(i as int));
        assert(kv.take(i + 1).last() == response_header_view(*h));
        append_bytes(&mut out, h.name.as_slice());
        append_bytes(&mut out, ": ".as_bytes());
        append_bytes(&mut out, h.value.as_slice());
        out.push(13);
        out.push(10);
        assert(out@ =~= start + header_block(kv.take(i + 1)));
        i = i + 1;
    }
    assert(kv.take(kept@.len() as int) =~= kv);
    out.push(13);
    out.push(10);
    assert(out@ =~= head_bytes(status, opt_text(*reason), response_headers_view(headers@)));
    out
}

/// The raw response head for an upstream status and headers, with the
/// status code's registered reason phrase.
pub fn response_head(status: u16, headers: &Vec<ResponseHeader>) -> (r: Vec<u8>)
    ensures
        r@ == head_bytes(status, canonical_reason_of(status), response_headers_view(headers@)),
{
    let reason = canonical_reason(status);
    serialize_head(status, &reason, headers)
}

/// The fixed raw answer written when the upstream host could not be reached.
pub fn bad_gateway_response() -> (r: Vec<u8>)
    ensures
        r@ == bad_gateway_bytes(),
{
    bytes_of("HTTP/1.1 502 Bad Gateway\r\n\r\nUpstream error")
}

/// The raw answer to a rejected request; none when the connection is abandoned.
pub fn rejection_response(rejection: RawRejection) -> (r: Option<Vec<u8>>)
    ensures
        match rejection_bytes(rejection) {
            Some(b) => r matches Some(v) && v@ == b,
            None => r is None,
        },
{
    match rejection {
        RawRejection::Abandon => None,
        RawRejection::BadRequest => Some(bytes_of("HTTP/1.1 400 Bad Request\r\n\r\n")),
        RawRejection::MethodNotAllowed => Some(
            bytes_of("HTTP/1.1 405 Method Not Allowed\r\n\r\n"),
        ),
    }
}

} // verus!
