//! Errors of the gateway WebSocket client.
use vstd::prelude::*;

verus! {

/// WebSocket error types for the SinoPac adapter.
#[derive(Clone, Debug)]
pub enum SinopacWsError {
    /// The WebSocket is not connected.
    NotConnected,
    /// Sending failed.
    Send(String),
    /// The connection attempt failed.
    Connection(String),
    /// JSON serialization or deserialization failed.
    Json(String),
}

} // verus!
