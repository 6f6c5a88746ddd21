//! How requests to the gateway REST API are routed and how their responses
//! are checked before decoding.
use vstd::prelude::*;
use vstd::utf8::{decode_utf8, valid_utf8};

use crate::common::consts::SINOPAC_GATEWAY_HTTP_URL;
use crate::common::text::concat2;
use crate::common::urls::{gateway_http_url, http_url_spec};
use super::error::SinopacHttpError;

verus! {

/// The HTTP method of a gateway request.
#[derive(Clone, Copy, Debug, PartialEq, Eq, Structural)]
pub enum GatewayMethod {
    /// `GET`.
    Get,
    /// `POST`.
    Post,
    /// `PUT`.
    Put,
    /// `DELETE`.
    Delete,
}

/// The operations of the gateway REST API.
#[derive(Clone, Debug)]
pub enum GatewayEndpoint {
    /// Log in.
    Login,
    /// Log out.
    Logout,
    /// Connection status.
    Status,
    /// All stock contracts.
    ListStocks,
    /// One stock contract by code.
    GetStock(String),
    /// All futures contracts.
    ListFutures,
    /// All options contracts.
    ListOptions,
    /// Market snapshots.
    Snapshots,
    /// Historical ticks.
    Ticks,
    /// Historical bars.
    KBars,
    /// Place an order.
    PlaceOrder,
    /// Modify an order.
    UpdateOrder,
    /// Cancel an order.
    CancelOrder,
    /// Active trades.
    ListTrades,
    /// Positions.
    ListPositions,
    /// Account balance.
    AccountBalance,
    /// Margin information.
    Margin,
    /// Profit and loss records.
    ProfitLoss,
}

/// The method of each operation: login, logout and order placement post,
/// order updates put, cancellations delete, everything else gets.
pub open spec fn endpoint_method_spec(e: GatewayEndpoint) -> GatewayMethod {
    match e {
        GatewayEndpoint::Login | GatewayEndpoint::Logout | GatewayEndpoint::PlaceOrder => GatewayMethod::Post,
        GatewayEndpoint::UpdateOrder => GatewayMethod::Put,
        GatewayEndpoint::CancelOrder => GatewayMethod::Delete,
        _ => GatewayMethod::Get,
    }
}

/// The path of each operation under the API base URL.
pub open spec fn endpoint_path_spec(e: GatewayEndpoint) -> Seq<char> {
    match e {
        GatewayEndpoint::Login => "/auth/login"@,
        GatewayEndpoint::Logout => "/auth/logout"@,
        GatewayEndpoint::Status => "/auth/status"@,
        GatewayEndpoint::ListStocks => "/contracts/stocks"@,
        GatewayEndpoint::GetStock(code) => "/contracts/stocks/"@ + code@,
        GatewayEndpoint::ListFutures => "/contracts/futures"@,
        GatewayEndpoint::ListOptions => "/contracts/options"@,
        GatewayEndpoint::Snapshots => "/market/snapshots"@,
        GatewayEndpoint::Ticks => "/market/ticks"@,
        GatewayEndpoint::KBars => "/market/kbars"@,
        GatewayEndpoint::PlaceOrder => "/orders/place"@,
        GatewayEndpoint::UpdateOrder => "/orders/update"@,
        GatewayEndpoint::CancelOrder => "/orders/cancel"@,
        GatewayEndpoint::ListTrades => "/orders/trades"@,
        GatewayEndpoint::ListPositions => "/account/positions"@,
        GatewayEndpoint::AccountBalance => "/account/balance"@,
        GatewayEndpoint::Margin => "/account/margin"@,
        GatewayEndpoint::ProfitLoss => "/account/pnl"@,
    }
}

impl GatewayEndpoint {
    /// The HTTP method of the operation.
    pub fn method(&self) -> (r: GatewayMethod)
        ensures
            r == endpoint_method_spec(*self),
    {
        match self {
            GatewayEndpoint::Login | GatewayEndpoint::Logout | GatewayEndpoint::PlaceOrder => GatewayMethod::Post,
            GatewayEndpoint::UpdateOrder => GatewayMethod::Put,
            GatewayEndpoint::CancelOrder => GatewayMethod::Delete,
            _ => GatewayMethod::Get,
        }
    }

    /// The path of the operation under the API base URL.
    pub fn path(&self) -> (r: String)
        ensures
            r@ == endpoint_path_spec(*self),
    {
        match self {
            GatewayEndpoint::Login => String::from_str("/auth/login"),
            GatewayEndpoint::Logout => String::from_str("/auth/logout"),
            GatewayEndpoint::Status => String::from_str("/auth/status"),
            GatewayEndpoint::ListStocks => String::from_str("/contracts/stocks"),
            GatewayEndpoint::GetStock(code) => concat2("/contracts/stocks/", code.as_str()),
            GatewayEndpoint::ListFutures => String::from_str("/contracts/futures"),
            GatewayEndpoint::ListOptions => String::from_str("/contracts/options"),
            GatewayEndpoint::Snapshots => String::from_str("/market/snapshots"),
            GatewayEndpoint::Ticks => String::from_str("/market/ticks"),
            GatewayEndpoint::KBars => String::from_str("/market/kbars"),
            GatewayEndpoint::PlaceOrder => String::from_str("/orders/place"),
            GatewayEndpoint::UpdateOrder => String::from_str("/orders/update"),
            GatewayEndpoint::CancelOrder => String::from_str("/orders/cancel"),
            GatewayEndpoint::ListTrades => String::from_str("/orders/trades"),
            GatewayEndpoint::ListPositions => String::from_str("/account/positions"),
            GatewayEndpoint::AccountBalance => String::from_str("/account/balance"),
            GatewayEndpoint::Margin => String::from_str("/account/margin"),
            GatewayEndpoint::ProfitLoss => String::from_str("/account/pnl"),
        }
    }

    /// The full URL of the operation under an API base URL.
    pub fn url(&self, base_url: &str) -> (r: String)
        ensures
            r@ == base_url@ + endpoint_path_spec(*self),
    {
        let path = self.path();
        concat2(base_url, path.as_str())
    }
}

/// The API base URL of a client: the `/api` prefix under the given raw gateway
/// URL, or under the default gateway URL when none is given.
pub open spec fn client_base_url_spec(base_url: Option<Seq<char>>) -> Seq<char> {
    match base_url {
        Some(b) => http_url_spec(b),
        None => http_url_spec(SINOPAC_GATEWAY_HTTP_URL@),
    }
}

/// Resolves the API base URL of an HTTP client.
pub fn resolve_http_base_url(base_url: Option<&str>) -> (r: String)
    ensures
        base_url matches Some(b) ==> r@ == b@ + "/api"@,
        base_url is None ==> r@ == SINOPAC_GATEWAY_HTTP_URL@ + "/api"@,
        r@ == client_base_url_spec(match base_url {
            Some(b) => Some(b@),
            None => None,
        }),
{
    match base_url {
        Some(b) => gateway_http_url(b),
        None => gateway_http_url(SINOPAC_GATEWAY_HTTP_URL),
    }
}

/// What `String::from_utf8_lossy` yields for a byte sequence.
pub uninterp spec fn utf8_lossy(bytes: Seq<u8>) -> Seq<char>;

/// Decodes a response body as text, replacing invalid UTF-8 sequences.
///
/// Calls `String::from_utf8_lossy`; std documents that valid UTF-8 decodes to
/// its characters, and that invalid sequences become U+FFFD. The contract
/// names the result and states the valid case.
#[verifier::external_body]
pub(crate) fn body_text(bytes: &[u8]) -> (r: String)
    ensures
        r@ == utf8_lossy(bytes@),
        valid_utf8(bytes@) ==> r@ == decode_utf8(bytes@),
{
    String::from_utf8_lossy(bytes).to_string()
}

/// The status check of a gateway response: a status of 400 or more is a
/// gateway error that carries the status and the body text.
pub open spec fn response_status_ok(status: u16) -> bool {
    status < 400
}

/// Checks a gateway response's status before its body is decoded.
pub fn check_gateway_status(status: u16, body: &[u8]) -> (r: Result<(), SinopacHttpError>)
    ensures
        r is Ok <==> status < 400,
        response_status_ok(status) <==> r is Ok,
        r matches Err(e) ==> (e matches SinopacHttpError::GatewayError { status: s, body: b }
            && s == status && b@ == utf8_lossy(body@)),
{
    if status >= 400 {
        Err(SinopacHttpError::GatewayError { status, body: body_text(body) })
    } else {
        Ok(())
    }
}

/// Logging in, logging out and placing an order are `POST`s, updating an
/// order is a `PUT` and cancelling one a `DELETE`; every other endpoint is a
/// `GET`. Every path starts with `/`, and a stock lookup is the stocks path
/// followed by `/` and the code.
pub proof fn lemma_endpoint_methods_and_paths(e: GatewayEndpoint)
    ensures
        (endpoint_method_spec(e) == GatewayMethod::Post) <==> (e is Login || e is Logout || e is PlaceOrder),
        (endpoint_method_spec(e) == GatewayMethod::Put) <==> e is UpdateOrder,
        (endpoint_method_spec(e) == GatewayMethod::Delete) <==> e is CancelOrder,
        endpoint_path_spec(e).len() > 0 && endpoint_path_spec(e)[0] == '/',
        e matches GatewayEndpoint::GetStock(code)
            ==> endpoint_path_spec(e) == "/contracts/stocks"@ + "/"@ + code@,
{
    reveal_strlit("/auth/login");
    reveal_strlit("/auth/logout");
    reveal_strlit("/auth/status");
    reveal_strlit("/contracts/stocks");
    reveal_strlit("/contracts/stocks/");
    reveal_strlit("/contracts/futures");
    reveal_strlit("/contracts/options");
    reveal_strlit("/market/snapshots");
    reveal_strlit("/market/ticks");
    reveal_strlit("/market/kbars");
    reveal_strlit("/orders/place");
    reveal_strlit("/orders/update");
    reveal_strlit("/orders/cancel");
    reveal_strlit("/orders/trades");
    reveal_strlit("/account/positions");
    reveal_strlit("/account/balance");
    reveal_strlit("/account/margin");
    reveal_strlit("/account/pnl");
    reveal_strlit("/");
    if let GatewayEndpoint::GetStock(code) = e {
        assert("/contracts/stocks/"@ + code@ =~= "/contracts/stocks"@ + "/"@ + code@);
    }
}

} // verus!
