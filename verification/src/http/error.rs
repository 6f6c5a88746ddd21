//! Errors of the gateway REST API.
use vstd::prelude::*;

verus! {

/// HTTP error types for the SinoPac gateway.
#[derive(Clone, Debug)]
pub enum SinopacHttpError {
    /// The HTTP request failed at the network level.
    NetworkError(String),
    /// JSON deserialization failed.
    JsonError(String),
    /// The gateway answered with an error status.
    GatewayError {
        /// The HTTP status code.
        status: u16,
        /// The response body.
        body: String,
    },
    /// The gateway is not connected.
    NotConnected,
}

} // verus!
