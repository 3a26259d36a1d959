//! Requests to providers.
use crate::clock::Millis;
use crate::providers::ws::{WsConfig, WsKeepalive};
use vstd::prelude::*;

verus! {

/// A header of a request.
#[derive(Debug)]
pub struct Header {
    pub name: &'static str,
    pub value: String,
}

/// An HTTP POST of a JSON body.
#[derive(Debug)]
pub struct HttpRequest {
    pub url: String,
    pub headers: Vec<Header>,
    pub body: String,
}

/// A WebSocket handshake.
#[derive(Debug)]
pub struct WsRequest {
    pub url: String,
    pub headers: Vec<Header>,
}

/// Headers as values.
pub open spec fn header_views(headers: Seq<Header>) -> Seq<(Seq<char>, Seq<char>)> {
    headers.map_values(|h: Header| (h.name@, h.value@))
}

/// One header.
pub(crate) fn one_header(name: &'static str, value: String) -> (h: Vec<Header>)
    ensures
        header_views(h@) == seq![(name@, value@)],
{
    let mut h: Vec<Header> = Vec::new();
    h.push(Header { name, value });
    assert(header_views(h@) =~= seq![(name@, value@)]);
    h
}

/// Two headers.
pub(crate) fn two_headers(
    name1: &'static str,
    value1: String,
    name2: &'static str,
    value2: &str,
) -> (h: Vec<Header>)
    ensures
        header_views(h@) == seq![(name1@, value1@), (name2@, value2@)],
{
    let mut h: Vec<Header> = Vec::new();
    h.push(Header { name: name1, value: value1 });
    h.push(Header { name: name2, value: value2.to_owned() });
    assert(header_views(h@) =~= seq![(name1@, value1@), (name2@, value2@)]);
    h
}

/// `s`, or `default` where `s` is empty.
pub open spec fn nonempty_or(s: Seq<char>, default: Seq<char>) -> Seq<char> {
    if s.len() == 0 {
        default
    } else {
        s
    }
}

/// `s`, or `default` where `s` is empty.
pub(crate) fn text_or(s: &str, default: &str) -> (r: String)
    ensures
        r@ == nonempty_or(s@, default@),
{
    if s.is_empty() {
        default.to_owned()
    } else {
        s.to_owned()
    }
}

/// Whether a voice is named at all.
pub open spec fn names_voice(voice_id: Seq<char>) -> bool {
    voice_id.len() > 0 && voice_id != "default"@
}

/// Whether a voice is named at all.
pub(crate) fn has_voice(voice_id: &str) -> (r: bool)
    ensures
        r == names_voice(voice_id@),
{
    !voice_id.is_empty() && !crate::text::same(voice_id, "default")
}

/// A configuration with three attempts a second apart, in at most `rounds` rounds.
pub(crate) fn ws_config(keepalive: WsKeepalive, rounds: u32) -> (c: WsConfig)
    ensures
        c == (WsConfig {
            keepalive,
            max_reconnect_attempts: 3,
            reconnect_delay: crate::clock::millis(1_000_000_000),
            max_total_reconnect_rounds: rounds,
        }),
{
    WsConfig {
        keepalive,
        max_reconnect_attempts: 3,
        reconnect_delay: Millis { ns: 1_000_000_000 },
        max_total_reconnect_rounds: rounds,
    }
}

/// A text that is given is used, and the default only where none is.
pub proof fn law_defaults_fill_gaps_only(s: Seq<char>, default: Seq<char>)
    ensures
        s.len() > 0 ==> nonempty_or(s, default) == s,
        nonempty_or(Seq::empty(), default) == default,
{
}

/// Neither nothing nor `default` names a voice; everything else does.
pub proof fn law_voices_are_named(voice_id: Seq<char>)
    ensures
        !names_voice(Seq::empty()),
        !names_voice("default"@),
        voice_id.len() > 0 && voice_id != "default"@ ==> names_voice(voice_id),
{
}

/// Headers keep their names, values and order.
pub proof fn law_headers_keep_order(headers: Seq<Header>, i: int)
    requires
        0 <= i < headers.len(),
    ensures
        header_views(headers).len() == headers.len(),
        header_views(headers)[i].0 == headers[i].name@,
        header_views(headers)[i].1 == headers[i].value@,
{
}

} // verus!
