//! The gateway WebSocket stream: messages, errors and the feed state.
pub mod book;
pub mod error;
pub mod messages;
pub mod parse;
pub mod feed;
pub mod emit;
pub mod dispatch;
