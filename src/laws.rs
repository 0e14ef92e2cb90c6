//! Properties of the forwarding pipeline that hold for every request.
use vstd::prelude::*;
use crate::inbound::InboundView;
use crate::outbound::{outbound_of, authorization_name, if_none_match_name, user_agent_name};
use crate::relay::{relayed, is_framing_name};

verus! {

proof fn lemma_header_names_distinct()
    ensures
        user_agent_name() != authorization_name(),
        if_none_match_name() != authorization_name(),
        user_agent_name() != if_none_match_name(),
{
    reveal_strlit("User-Agent");
    reveal_strlit("Authorization");
    reveal_strlit("If-None-Match");
    assert(user_agent_name().len() != authorization_name().len());
    assert(user_agent_name().len() != if_none_match_name().len());
    assert(if_none_match_name()[0] != authorization_name()[0]);
}

/// A forwarded request goes upstream with the method it came with.
pub proof fn outbound_keeps_method(r: InboundView, user_agent: Seq<char>)
    requires
        r.method.is_supported(),
    ensures
        outbound_of(r, user_agent).method == r.method,
{
}

/// An inbound Authorization value goes upstream unchanged under
/// `Authorization`; without one, no `Authorization` header is sent.
pub proof fn outbound_relays_authorization(r: InboundView, user_agent: Seq<char>)
    ensures
        r.authorization matches Some(a) ==> outbound_of(r, user_agent).headers.contains(
            (authorization_name(), a),
        ),
        r.authorization is None ==> forall|i: int|
            0 <= i < outbound_of(r, user_agent).headers.len() ==> (#[trigger] outbound_of(
                r,
                user_agent,
            ).headers[i]).0 != authorization_name(),
{
    lemma_header_names_distinct();
    let hs = outbound_of(r, user_agent).headers;
    if let Some(a) = r.authorization {
        assert(hs[1] == (authorization_name(), a));
    }
}

/// An inbound If-None-Match value goes upstream unchanged under
/// `If-None-Match`; without one, no such header is sent.
pub proof fn outbound_relays_cache_validator(r: InboundView, user_agent: Seq<char>)
    ensures
        r.cache_validator matches Some(v) ==> outbound_of(r, user_agent).headers.contains(
            (if_none_match_name(), v),
        ),
        r.cache_validator is None ==> forall|i: int|
            0 <= i < outbound_of(r, user_agent).headers.len() ==> (#[trigger] outbound_of(
                r,
                user_agent,
            ).headers[i]).0 != if_none_match_name(),
{
    lemma_header_names_distinct();
    let hs = outbound_of(r, user_agent).headers;
    if let Some(v) = r.cache_validator {
        assert(hs[hs.len() - 1] == (if_none_match_name(), v));
    }
}

/// Every method but GET sends a body upstream, the inbound one, even when
/// it is empty.
pub proof fn outbound_body_for_non_get(r: InboundView, user_agent: Seq<char>)
    requires
        !r.method.is_get(),
    ensures
        outbound_of(r, user_agent).body == Some(r.body),
{
}

/// GET sends no body upstream, whatever bytes came in.
pub proof fn outbound_no_body_for_get(r: InboundView, user_agent: Seq<char>)
    requires
        r.method.is_get(),
    ensures
        outbound_of(r, user_agent).body is None,
{
}

/// In raw mode the client gets every upstream header but `Content-Length`
/// and `Transfer-Encoding`, in order and unchanged; in framework mode it
/// gets them all.
pub proof fn relay_drops_only_framing_headers(hs: Seq<(Seq<u8>, Seq<u8>)>)
    ensures
        forall|i: int|
            0 <= i < relayed(hs, true).len() ==> !is_framing_name(
                (#[trigger] relayed(hs, true)[i]).0,
            ) && hs.contains(relayed(hs, true)[i]),
        forall|h: (Seq<u8>, Seq<u8>)|
            #[trigger] hs.contains(h) && !is_framing_name(h.0) ==> relayed(hs, true).contains(h),
        relayed(hs, false) == hs,
{
    broadcast use Seq::lemma_filter_contains_rev, Seq::lemma_filter_pred;

    let p = |h: (Seq<u8>, Seq<u8>)| crate::relay::not_framing(h);
    assert forall|i: int| 0 <= i < relayed(hs, true).len() implies !is_framing_name(
        (#[trigger] relayed(hs, true)[i]).0,
    ) && hs.contains(relayed(hs, true)[i]) by {
        hs.lemma_filter_pred(p, i);
        hs.lemma_filter_contains_rev(p, relayed(hs, true)[i]);
    }
    assert forall|h: (Seq<u8>, Seq<u8>)| #[trigger]
        hs.contains(h) && !is_framing_name(h.0) implies relayed(hs, true).contains(h) by {
        let i = choose|i: int| 0 <= i < hs.len() && hs[i] == h;
        hs.lemma_filter_contains(p, i);
    }
}

/// Building the upstream request keeps nothing from one request to the
/// next: the same request, sent twice, is built alike but for the
/// User-Agent drawn each time.
pub proof fn outbound_is_built_afresh(r: InboundView, first: Seq<char>, second: Seq<char>)
    ensures
        outbound_of(r, first).url == outbound_of(r, second).url,
        outbound_of(r, first).method == outbound_of(r, second).method,
        outbound_of(r, first).body == outbound_of(r, second).body,
        outbound_of(r, first).headers.len() == outbound_of(r, second).headers.len(),
        outbound_of(r, first).headers.drop_first() == outbound_of(r, second).headers.drop_first(),
        outbound_of(r, first).headers[0] == (user_agent_name(), first),
        outbound_of(r, second).headers[0] == (user_agent_name(), second),
{
    let a = outbound_of(r, first).headers;
    let b = outbound_of(r, second).headers;
    assert(a.drop_first() =~= b.drop_first());
}

} // verus!
