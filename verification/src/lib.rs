//! Verified core of the SinoPac gateway adapter: venue enumerations, gateway
//! URL rules, tick-size schedules, Taiwan-time conversion, order-book level
//! selection and the WebSocket feed subscription state.
pub mod common;
pub mod http;
pub mod websocket;
