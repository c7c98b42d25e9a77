//! The dealing domain: deal outcomes, the typestate markers of the order
//! builders, request paths, and the retry budget of confirmation polling.

use vstd::prelude::*;

use crate::models::common::{DealId, DealReference};
use crate::paths::prefixed;

verus! {

/// Outcome status of a deal confirmation.
#[derive(Debug, Clone, Copy, PartialEq, Eq, Structural)]
pub enum DealStatus {
    Accepted,
    Rejected,
    Unknown,
}

impl DealStatus {
    /// The wire name: `ACCEPTED`, `REJECTED` or `UNKNOWN`.
    pub fn as_str(&self) -> (r: &'static str)
        ensures
            *self == DealStatus::Accepted ==> r@ == "ACCEPTED"@,
            *self == DealStatus::Rejected ==> r@ == "REJECTED"@,
            *self == DealStatus::Unknown ==> r@ == "UNKNOWN"@,
    {
        match self {
            DealStatus::Accepted => "ACCEPTED",
            DealStatus::Rejected => "REJECTED",
            DealStatus::Unknown => "UNKNOWN",
        }
    }
}

/// Marker: this mandatory builder field has not been set yet.
#[derive(Debug)]
pub struct Missing;

/// Marker: this mandatory builder field has been set to a `T`.
#[derive(Debug)]
pub struct Provided<T>(pub T);

/// How many times a deal confirmation is requested before giving up.
pub const CONFIRM_ATTEMPTS: u8 = 5;

/// Whether another confirmation request follows a failed `attempt`
/// (0-based): while fewer than [`CONFIRM_ATTEMPTS`] have been made.
pub fn confirm_again(attempt: u8) -> (r: bool)
    ensures
        r == (attempt + 1 < CONFIRM_ATTEMPTS),
{
    attempt < CONFIRM_ATTEMPTS - 1
}

/// `confirms/{deal_reference}`.
pub fn confirm_path(deal_reference: &DealReference) -> (r: String)
    ensures
        r@ == "confirms/"@ + deal_reference.0@,
{
    prefixed("confirms/", deal_reference.0.as_str())
}

/// `positions/{deal_id}`.
pub fn position_path(deal_id: &DealId) -> (r: String)
    ensures
        r@ == "positions/"@ + deal_id.0@,
{
    prefixed("positions/", deal_id.0.as_str())
}

/// `positions/otc/{deal_id}`.
pub fn position_otc_path(deal_id: &DealId) -> (r: String)
    ensures
        r@ == "positions/otc/"@ + deal_id.0@,
{
    prefixed("positions/otc/", deal_id.0.as_str())
}

/// `workingorders/otc/{deal_id}`.
pub fn working_order_path(deal_id: &DealId) -> (r: String)
    ensures
        r@ == "workingorders/otc/"@ + deal_id.0@,
{
    prefixed("workingorders/otc/", deal_id.0.as_str())
}

} // verus!
