//! Definitions shared by the REST and WebSocket sides.
pub mod consts;
pub mod decimal;
pub mod datetime;
pub mod enums;
pub mod instrument;
pub mod parse;
pub mod text;
pub mod tick_size;
pub mod urls;
