use api_proxy::inbound::{InboundRequest, RawRejection};
use api_proxy::method::Method;
use api_proxy::outbound::{build_outbound, prepare_outbound, Header, OutboundRequest};
use api_proxy::proxy::{forward_raw, framework_reply, raw_reply, BAD_GATEWAY};
use api_proxy::relay::{
    bad_gateway_response, is_framing_header, rejection_response, relayed_headers, response_head,
    serialize_head, DispatchError, ResponseHeader, UpstreamHead,
};
use api_proxy::user_agent::{choose_user_agent, user_agent_at, USER_AGENT_COUNT};

fn header(name: &str, value: &str) -> Header {
    Header { name: name.to_string(), value: value.to_string() }
}

fn rheader(name: &str, value: &str) -> ResponseHeader {
    ResponseHeader { name: name.as_bytes().to_vec(), value: value.as_bytes().to_vec() }
}

fn pool() -> Vec<String> {
    (0..USER_AGENT_COUNT).map(user_agent_at).collect()
}

fn framework(method: Method, auth: Option<&str>, etag: Option<&str>, body: &[u8]) -> InboundRequest {
    InboundRequest::from_framework(
        method,
        "tracks/123",
        "",
        auth.map(|s| s.to_string()),
        etag.map(|s| s.to_string()),
        body.to_vec(),
    )
}

fn forwarded(buf: &[u8]) -> OutboundRequest {
    match forward_raw(buf) {
        Ok(out) => out,
        Err(e) => panic!("request was rejected: {:?}", e),
    }
}

#[test]
fn unknown_method_gets_405_and_no_upstream_request() {
    let r = forward_raw(b"FOO /tracks HTTP/1.1\r\n\r\n");
    assert_eq!(r.as_ref().err(), Some(&RawRejection::MethodNotAllowed));
    let answer = rejection_response(RawRejection::MethodNotAllowed).unwrap();
    assert_eq!(answer, b"HTTP/1.1 405 Method Not Allowed\r\n\r\n".to_vec());
}

#[test]
fn one_word_request_line_gets_400() {
    let r = forward_raw(b"GETxyz\r\n\r\n");
    assert_eq!(r.as_ref().err(), Some(&RawRejection::BadRequest));
    let answer = rejection_response(RawRejection::BadRequest).unwrap();
    assert_eq!(answer, b"HTTP/1.1 400 Bad Request\r\n\r\n".to_vec());
}

#[test]
fn empty_or_invalid_input_is_abandoned_silently() {
    assert_eq!(forward_raw(b"").err(), Some(RawRejection::Abandon));
    assert_eq!(forward_raw(&[0x47, 0x45, 0xff, 0x20, 0x2f]).err(), Some(RawRejection::Abandon));
    assert_eq!(rejection_response(RawRejection::Abandon), None);
}

#[test]
fn lower_case_method_is_not_allowed() {
    assert_eq!(forward_raw(b"get /x HTTP/1.1\r\n\r\n").err(), Some(RawRejection::MethodNotAllowed));
}

#[test]
fn dispatch_failure_gives_502_upstream_error() {
    let raw = raw_reply(&Err(DispatchError));
    assert!(!raw.stream_body);
    assert_eq!(raw.head, b"HTTP/1.1 502 Bad Gateway\r\n\r\nUpstream error".to_vec());
    assert_eq!(bad_gateway_response(), raw.head);
    let fw = framework_reply(Err(DispatchError));
    assert_eq!(fw.status, 502);
    assert_eq!(fw.status, BAD_GATEWAY);
    assert!(fw.headers.is_empty());
    assert_eq!(fw.fixed_body.as_deref(), Some("Upstream error"));
}

#[test]
fn framework_path_and_query_form_the_upstream_url() {
    let inbound = InboundRequest::from_framework(
        Method::Get,
        "tracks/123",
        "market=US",
        None,
        None,
        Vec::new(),
    );
    assert_eq!(inbound.target_path, "/v1/tracks/123");
    assert_eq!(inbound.query.as_deref(), Some("market=US"));
    let out = build_outbound(inbound, "agent".to_string());
    assert_eq!(out.url, "https://api.spotify.com/v1/tracks/123?market=US");
}

#[test]
fn framework_without_query_has_no_question_mark() {
    let out = build_outbound(framework(Method::Get, None, None, b""), "agent".to_string());
    assert_eq!(out.url, "https://api.spotify.com/v1/tracks/123");
}

#[test]
fn raw_relay_drops_framing_headers_and_keeps_the_rest() {
    let headers = vec![
        rheader("content-type", "application/json"),
        rheader("content-length", "13"),
        rheader("etag", "\"abc\""),
    ];
    let head = response_head(200, &headers);
    assert_eq!(
        String::from_utf8(head).unwrap(),
        "HTTP/1.1 200 OK\r\ncontent-type: application/json\r\netag: \"abc\"\r\n\r\n"
    );
    let kept = relayed_headers(&headers, true);
    assert_eq!(kept, vec![rheader("content-type", "application/json"), rheader("etag", "\"abc\"")]);
    assert_eq!(relayed_headers(&headers, false), headers);
}

#[test]
fn raw_reply_streams_after_head() {
    let head = UpstreamHead { status: 200, headers: vec![rheader("Transfer-Encoding", "chunked")] };
    let r = raw_reply(&Ok(head));
    assert!(r.stream_body);
    assert_eq!(r.head, b"HTTP/1.1 200 OK\r\n\r\n".to_vec());
}

#[test]
fn framework_reply_passes_all_headers() {
    let headers = vec![rheader("content-length", "13"), rheader("etag", "x")];
    let r = framework_reply(Ok(UpstreamHead { status: 304, headers: headers.clone() }));
    assert_eq!(r.status, 304);
    assert_eq!(r.headers, headers);
    assert_eq!(r.fixed_body, None);
}

#[test]
fn framing_header_names_match_in_any_case() {
    assert!(is_framing_header(b"Content-Length"));
    assert!(is_framing_header(b"TRANSFER-ENCODING"));
    assert!(is_framing_header(b"content-length"));
    assert!(!is_framing_header(b"content-type"));
    assert!(!is_framing_header(b"content-lengthx"));
}

#[test]
fn status_line_uses_canonical_reason() {
    let head = response_head(404, &Vec::new());
    assert_eq!(head, b"HTTP/1.1 404 Not Found\r\n\r\n".to_vec());
    let head = response_head(503, &Vec::new());
    assert_eq!(head, b"HTTP/1.1 503 Service Unavailable\r\n\r\n".to_vec());
}

#[test]
fn status_line_without_reason_says_ok() {
    let head = serialize_head(299, &None, &vec![rheader("a", "b")]);
    assert_eq!(head, b"HTTP/1.1 299 OK\r\na: b\r\n\r\n".to_vec());
    let head = serialize_head(7, &Some("Odd".to_string()), &Vec::new());
    assert_eq!(head, b"HTTP/1.1 7 Odd\r\n\r\n".to_vec());
    assert_eq!(response_head(299, &Vec::new()), b"HTTP/1.1 299 OK\r\n\r\n".to_vec());
}

#[test]
fn every_supported_method_is_kept() {
    let cases = [
        ("GET", Method::Get),
        ("POST", Method::Post),
        ("PUT", Method::Put),
        ("DELETE", Method::Delete),
        ("PATCH", Method::Patch),
    ];
    for (name, method) in cases {
        let req = format!("{} /v1/me HTTP/1.1\r\nHost: x\r\n\r\n", name);
        let out = forwarded(req.as_bytes());
        assert_eq!(out.method, method);
        assert_eq!(out.url, "https://api.spotify.com/v1/me");
        assert_eq!(Method::from_name(name), method);
    }
    assert_eq!(Method::from_name("HEAD"), Method::Other("HEAD".to_string()));
}

#[test]
fn authorization_is_relayed_verbatim_or_not_at_all() {
    let out = build_outbound(framework(Method::Get, Some("Bearer t0k"), None, b""), "ua".to_string());
    assert_eq!(out.headers, vec![header("User-Agent", "ua"), header("Authorization", "Bearer t0k")]);
    let out = build_outbound(framework(Method::Get, None, None, b""), "ua".to_string());
    assert_eq!(out.headers, vec![header("User-Agent", "ua")]);
}

#[test]
fn if_none_match_is_relayed_unmodified() {
    let out = build_outbound(
        framework(Method::Get, Some("Bearer a"), Some("\"v1\""), b""),
        "ua".to_string(),
    );
    assert_eq!(
        out.headers,
        vec![
            header("User-Agent", "ua"),
            header("Authorization", "Bearer a"),
            header("If-None-Match", "\"v1\""),
        ]
    );
    let out = build_outbound(framework(Method::Get, None, Some("W/\"x\""), b""), "ua".to_string());
    assert_eq!(out.headers, vec![header("User-Agent", "ua"), header("If-None-Match", "W/\"x\"")]);
}

#[test]
fn non_get_methods_always_carry_a_body() {
    for m in [Method::Post, Method::Put, Method::Delete, Method::Patch] {
        let out = build_outbound(framework(m, None, None, b""), "ua".to_string());
        assert_eq!(out.body, Some(Vec::new()));
    }
    let out = build_outbound(framework(Method::Put, None, None, b"{}"), "ua".to_string());
    assert_eq!(out.body, Some(b"{}".to_vec()));
}

#[test]
fn get_never_carries_a_body() {
    let out = build_outbound(framework(Method::Get, None, None, b"ignored"), "ua".to_string());
    assert_eq!(out.body, None);
    let out = forwarded(b"GET /v1/me HTTP/1.1\r\n\r\npayload");
    assert_eq!(out.body, None);
}

#[test]
fn chosen_user_agent_comes_from_the_pool_and_covers_it() {
    let pool = pool();
    assert_eq!(pool.len(), 3);
    let mut seen = [false; 3];
    for _ in 0..600 {
        let ua = choose_user_agent();
        let i = pool.iter().position(|p| *p == ua).expect("user agent outside the pool");
        seen[i] = true;
    }
    assert_eq!(seen, [true, true, true]);
}

#[test]
fn prepared_request_uses_a_pool_agent() {
    let out = prepare_outbound(framework(Method::Get, None, None, b""));
    assert_eq!(out.headers.len(), 1);
    assert_eq!(out.headers[0].name, "User-Agent");
    assert!(pool().contains(&out.headers[0].value));
}

#[test]
fn same_get_twice_builds_two_equal_requests() {
    let a = build_outbound(framework(Method::Get, Some("k"), None, b""), "ua".to_string());
    let b = build_outbound(framework(Method::Get, Some("k"), None, b""), "ua".to_string());
    assert_eq!(a.url, b.url);
    assert_eq!(a.method, b.method);
    assert_eq!(a.headers, b.headers);
    assert_eq!(a.body, b.body);
}

#[test]
fn raw_headers_are_found_case_insensitively_and_trimmed() {
    let out = forwarded(
        b"GET /v1/me?x=1 HTTP/1.1\r\nHost: h\r\nAUTHORIZATION:   Bearer abc  \r\nif-none-match: \"e1\"\r\nAuthorization: second\r\n\r\n",
    );
    assert_eq!(out.url, "https://api.spotify.com/v1/me?x=1");
    assert_eq!(out.headers.len(), 3);
    assert_eq!(out.headers[1], header("Authorization", "Bearer abc"));
    assert_eq!(out.headers[2], header("If-None-Match", "\"e1\""));
}

#[test]
fn raw_request_line_is_not_a_header() {
    let r = InboundRequest::parse_raw(b"GET authorization: HTTP/1.1\r\n\r\n").unwrap();
    assert_eq!(r.target_path, "authorization:");
    assert_eq!(r.authorization, None);
    assert_eq!(r.cache_validator, None);
    assert_eq!(r.query, None);
}

#[test]
fn raw_body_is_the_bytes_after_the_blank_line() {
    let out = forwarded(b"POST /v1/p HTTP/1.1\r\nContent-Type: text/plain\r\n\r\nhello\r\n\r\nworld");
    assert_eq!(out.method, Method::Post);
    assert_eq!(out.body, Some(b"hello\r\n\r\nworld".to_vec()));
    let out = forwarded(b"DELETE /v1/p HTTP/1.1\r\n");
    assert_eq!(out.body, Some(Vec::new()));
    let r = InboundRequest::parse_raw(b"GET /v1/p HTTP/1.1\r\n\r\nabc").unwrap();
    assert!(r.body.is_empty());
}

#[test]
fn raw_request_line_may_lack_a_version() {
    let r = InboundRequest::parse_raw(b"  PATCH\t/v1/x").unwrap();
    assert_eq!(r.method, Method::Patch);
    assert_eq!(r.target_path, "/v1/x");
    assert!(r.body.is_empty());
}

#[test]
fn raw_body_keeps_non_text_bytes_intact() {
    let mut buf = "PUT /v1/u HTTP/1.1\r\n\r\n".as_bytes().to_vec();
    buf.extend_from_slice("é€".as_bytes());
    let out = forwarded(&buf);
    assert_eq!(out.body, Some("é€".as_bytes().to_vec()));
}
