//! WebSocket messages of the gateway that hold no prices.
use vstd::prelude::*;

use crate::common::enums::SinopacQuoteType;

verus! {

/// A subscribe or unsubscribe command.
#[derive(Clone, Debug)]
pub struct WsSubscribeMsg {
    /// The action (`subscribe` or `unsubscribe`).
    pub action: String,
    /// The contract code.
    pub contract_code: String,
    /// The quote type.
    pub quote_type: SinopacQuoteType,
}

/// Operation information of an order event.
#[derive(Clone, Debug)]
pub struct OperationInfo {
    /// The operation type (New, Cancel, ...).
    pub op_type: String,
    /// The operation result code.
    pub op_code: String,
    /// The operation result message.
    pub op_msg: String,
}

/// Stock contract information of an order event.
#[derive(Clone, Debug)]
pub struct StockContractInfo {
    /// The security type identifier.
    pub security_type: String,
    /// The exchange code.
    pub exchange: String,
    /// The contract code.
    pub code: String,
    /// The contract symbol.
    pub symbol: String,
    /// The contract name.
    pub name: String,
}

/// A subscription confirmation.
#[derive(Clone, Debug)]
pub struct WsConfirmMsg {
    /// The contract code.
    pub code: String,
    /// The quote type (`tick` or `bidask`).
    pub quote_type: String,
}

/// An error message from the gateway.
#[derive(Clone, Debug)]
pub struct WsErrorMsg {
    /// The error detail.
    pub detail: String,
}

} // verus!
