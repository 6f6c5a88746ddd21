//! Request and response models of the gateway REST API that hold no prices.
use vstd::prelude::*;

verus! {

/// A login request.
#[derive(Clone, Debug)]
pub struct LoginRequest {
    /// The API key.
    pub api_key: String,
    /// The secret key.
    pub secret_key: String,
    /// The optional path to the CA certificate file.
    pub ca_path: Option<String>,
    /// The optional CA certificate password.
    pub ca_passwd: Option<String>,
    /// Whether to use simulation mode.
    pub simulation: bool,
}

/// A login response.
#[derive(Clone, Debug)]
pub struct LoginResponse {
    /// The accounts of the login.
    pub accounts: Vec<AccountInfo>,
}

/// An account entry of a login response.
#[derive(Clone, Debug)]
pub struct AccountInfo {
    /// The account type identifier.
    pub account_type: String,
    /// The account identifier.
    pub account_id: String,
}

/// The gateway connection status.
#[derive(Clone, Copy, Debug, PartialEq, Eq, Structural)]
pub struct StatusResponse {
    /// Whether the gateway is connected.
    pub connected: bool,
    /// Whether the gateway is in simulation mode.
    pub simulation: bool,
}

/// A response that carries only a status message.
#[derive(Clone, Debug)]
pub struct MessageResponse {
    /// The status message.
    pub status: String,
}

/// A response that carries a status message and a trade identifier.
#[derive(Clone, Debug)]
pub struct TradeIdResponse {
    /// The status message.
    pub status: String,
    /// The trade identifier.
    pub trade_id: String,
}

/// A request to cancel an order.
#[derive(Clone, Debug)]
pub struct CancelOrderRequest {
    /// The trade identifier to cancel.
    pub trade_id: String,
}

/// The response to a placed order.
#[derive(Clone, Debug)]
pub struct PlaceOrderResponse {
    /// The trade identifier.
    pub trade_id: String,
    /// The contract code.
    pub code: String,
    /// The order action (Buy or Sell).
    pub action: String,
    /// The order status.
    pub status: String,
}

} // verus!
