//! Shared domain types.

pub mod common;
