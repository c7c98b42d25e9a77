//! Session lifecycle: login (v2/v3), refresh, switch account, logout.
//!
//! This module owns the *state* that the HTTP transport reads on every
//! request: the active auth tokens and the bound account.

use vstd::prelude::*;

use crate::text::{chars_of, string_of};

pub mod tokens;
pub mod auth;
pub mod encryption;

verus! {

/// User-supplied login credentials.
#[derive(Debug, Clone)]
pub enum Credentials {
    /// Plain username + password (v2/v3 login).
    Password { username: String, password: String },
}

impl Credentials {
    /// Password credentials.
    pub fn password(username: &str, password: &str) -> (r: Credentials)
        ensures
            r matches Credentials::Password { username: u, password: p } && u@ == username@ && p@
                == password@,
    {
        Credentials::Password {
            username: string_of(&chars_of(username)),
            password: string_of(&chars_of(password)),
        }
    }
}

/// Subset of the `POST /session` response surfaced to callers.
#[derive(Debug, Clone)]
pub struct SessionInfo {
    pub account_id: String,
    pub client_id: String,
    pub timezone_offset: Option<i32>,
    pub lightstreamer_endpoint: String,
    pub currency_iso_code: Option<String>,
    pub locale: Option<String>,
}

/// Details returned by `GET /session`.
#[derive(Debug, Clone)]
pub struct SessionDetails {
    pub account_id: String,
    pub client_id: String,
    pub account_type: Option<String>,
    pub currency: Option<String>,
    pub locale: Option<String>,
    pub timezone_offset: Option<i32>,
    pub lightstreamer_endpoint: Option<String>,
}

/// Body returned by `PUT /session` (switch account).
#[derive(Debug, Clone, Default)]
pub struct SwitchAccountResponse {
    pub trailing_stops_enabled: bool,
    pub dealing_enabled: bool,
    pub has_active_demo_accounts: Option<bool>,
    pub has_active_live_accounts: Option<bool>,
}

/// Reply of `GET /session/encryptionKey`.
#[derive(Debug, Clone)]
pub struct EncryptionKey {
    /// Base64-encoded RSA public key (DER-encoded SPKI).
    pub encryption_key: String,
    /// Server-supplied timestamp in milliseconds.
    pub time_stamp: i64,
}

} // verus!
