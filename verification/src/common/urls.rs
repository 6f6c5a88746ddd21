//! URL resolution for the SinoPac gateway.
use vstd::prelude::*;

use crate::common::consts::SINOPAC_GATEWAY_WS_URL;
use crate::common::text::{concat2, concat3, strip_prefix};

verus! {

/// The HTTP base URL of the gateway REST API under a raw gateway URL.
pub open spec fn http_url_spec(base: Seq<char>) -> Seq<char> {
    base + "/api"@
}

/// The WebSocket URL of the gateway under a raw gateway URL: an `http://`
/// scheme becomes `ws://`, an `https://` scheme becomes `wss://`, and any other
/// URL is kept as it is; `/ws` is appended in every case.
pub open spec fn ws_url_spec(base: Seq<char>) -> Seq<char> {
    if "http://"@.is_prefix_of(base) {
        "ws://"@ + base.skip(7) + "/ws"@
    } else if "https://"@.is_prefix_of(base) {
        "wss://"@ + base.skip(8) + "/ws"@
    } else {
        base + "/ws"@
    }
}

/// Returns the gateway HTTP base URL (`{base_url}/api`).
pub fn gateway_http_url(base_url: &str) -> (r: String)
    ensures
        r@ == http_url_spec(base_url@),
{
    concat2(base_url, "/api")
}

/// Returns the gateway WebSocket URL for a raw gateway URL.
pub fn gateway_ws_url(base_url: &str) -> (r: String)
    ensures
        r@ == ws_url_spec(base_url@),
{
    proof {
        reveal_strlit("http://");
        reveal_strlit("https://");
    }
    if let Some(host) = strip_prefix(base_url, "http://") {
        concat3("ws://", host, "/ws")
    } else if let Some(host) = strip_prefix(base_url, "https://") {
        concat3("wss://", host, "/ws")
    } else {
        concat2(base_url, "/ws")
    }
}

/// The URL a WebSocket client connects to: the given one, else the default
/// gateway WebSocket URL.
pub open spec fn ws_client_url_spec(url: Option<Seq<char>>) -> Seq<char> {
    match url {
        Some(u) => u,
        None => SINOPAC_GATEWAY_WS_URL@,
    }
}

/// Resolves the URL of a WebSocket client.
pub fn resolve_ws_url(url: Option<&str>) -> (r: String)
    ensures
        url matches Some(u) ==> r@ == u@,
        url is None ==> r@ == SINOPAC_GATEWAY_WS_URL@,
        r@ == ws_client_url_spec(match url {
            Some(u) => Some(u@),
            None => None,
        }),
{
    match url {
        Some(u) => String::from_str(u),
        None => String::from_str(SINOPAC_GATEWAY_WS_URL),
    }
}

/// The REST base URL is the raw URL followed by `/api`; the WebSocket URL
/// keeps the host and path of the raw URL, swaps `http://` for `ws://` and
/// `https://` for `wss://`, and always ends with `/ws`.
pub proof fn lemma_gateway_url_shapes(base: Seq<char>)
    ensures
        http_url_spec(base).subrange(0, base.len() as int) == base,
        http_url_spec(base).skip(base.len() as int) == "/api"@,
        "http://"@.is_prefix_of(base) ==> ws_url_spec(base) == "ws://"@ + base.skip(7) + "/ws"@,
        "https://"@.is_prefix_of(base) ==> ws_url_spec(base) == "wss://"@ + base.skip(8) + "/ws"@,
        !"http://"@.is_prefix_of(base) && !"https://"@.is_prefix_of(base)
            ==> ws_url_spec(base) == base + "/ws"@,
        ws_url_spec(base).len() >= 3,
        ws_url_spec(base).skip(ws_url_spec(base).len() - 3) == "/ws"@,
{
    reveal_strlit("/api");
    reveal_strlit("/ws");
    reveal_strlit("http://");
    reveal_strlit("https://");
    reveal_strlit("ws://");
    reveal_strlit("wss://");
    assert(http_url_spec(base).subrange(0, base.len() as int) =~= base);
    assert(http_url_spec(base).skip(base.len() as int) =~= "/api"@);
    if "http://"@.is_prefix_of(base) {
        assert(!"https://"@.is_prefix_of(base)) by {
            if "https://"@.is_prefix_of(base) {
                assert(base[4] == "http://"@[4]);
                assert(base[4] == "https://"@[4]);
            }
        }
    }
    let w = ws_url_spec(base);
    assert(w.skip(w.len() - 3) =~= "/ws"@);
}

} // verus!
