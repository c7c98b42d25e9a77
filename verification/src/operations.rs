//! The operations (application management) domain.

use vstd::prelude::*;

verus! {

/// Status of an API application key.
#[derive(Debug, Clone, Copy, PartialEq, Eq, Structural)]
pub enum ApplicationStatus {
    Enabled,
    Disabled,
    Revoked,
}

impl ApplicationStatus {
    /// The wire name: `ENABLED`, `DISABLED` or `REVOKED`.
    pub fn as_str(&self) -> (r: &'static str)
        ensures
            *self == ApplicationStatus::Enabled ==> r@ == "ENABLED"@,
            *self == ApplicationStatus::Disabled ==> r@ == "DISABLED"@,
            *self == ApplicationStatus::Revoked ==> r@ == "REVOKED"@,
    {
        match self {
            ApplicationStatus::Enabled => "ENABLED",
            ApplicationStatus::Disabled => "DISABLED",
            ApplicationStatus::Revoked => "REVOKED",
        }
    }
}

/// Body of `PUT /operations/application`.
#[derive(Debug, Clone)]
pub struct UpdateApplicationRequest {
    pub api_key: String,
    pub status: ApplicationStatus,
    pub allowance_account_overall: u32,
    pub allowance_account_trading: u32,
}

} // verus!
