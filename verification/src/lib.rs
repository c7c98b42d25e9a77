//! Verified core of a client for the IG Markets REST and Lightstreamer
//! streaming APIs: wire-format parsing, request-path construction, session
//! token bookkeeping and the streaming subscription registry.

pub mod text;
pub mod outside;
pub mod error;
pub mod dealing;
pub mod client;
pub mod accounts;
pub mod history;
pub mod markets;
pub mod models;
pub mod operations;
pub mod paths;
pub mod prices;
pub mod query;
pub mod sentiment;
pub mod session;
pub mod time;
pub mod watchlists;
pub mod streaming;
