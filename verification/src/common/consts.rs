//! Constants for the SinoPac adapter.
use vstd::prelude::*;

verus! {

/// The SinoPac venue string.
pub const SINOPAC: &'static str = "SINOPAC";

/// Default gateway HTTP URL.
pub const SINOPAC_GATEWAY_HTTP_URL: &'static str = "http://localhost:8000";

/// Default gateway WebSocket URL.
pub const SINOPAC_GATEWAY_WS_URL: &'static str = "ws://localhost:8000/ws";

} // verus!
