//! Lightstreamer streaming: frame parsing, line framing, subscription
//! registry and the decisions of the read loop.

pub mod protocol;
pub mod events;
pub mod subscription;
pub mod reconnect;
pub mod connection;
