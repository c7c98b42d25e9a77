//! The watchlists domain: types and paths.

use vstd::prelude::*;

use crate::models::common::Epic;
use crate::paths::{prefixed, prefixed2};

verus! {

/// Watchlist entry of `GET /watchlists`.
#[derive(Debug, Clone)]
pub struct WatchlistSummary {
    pub id: String,
    pub name: String,
    pub editable: bool,
    pub deleteable: bool,
    pub default_system_watchlist: bool,
}

/// Body of `POST /watchlists`.
#[derive(Debug, Clone)]
pub struct CreateWatchlistRequest {
    pub name: String,
    pub epics: Vec<Epic>,
}

/// Outcome of creating a watchlist.
#[derive(Debug, Clone, Copy, PartialEq, Eq, Structural)]
pub enum CreateWatchlistStatus {
    Success,
    SuccessNotAllInstrumentsAdded,
}

/// Reply to `POST /watchlists`.
#[derive(Debug, Clone)]
pub struct CreateWatchlistResponse {
    pub watchlist_id: String,
    pub status: CreateWatchlistStatus,
}

/// Reply to adding a market to a watchlist.
#[derive(Debug, Clone)]
pub struct AddMarketResponse {
    pub status: String,
}

/// Reply to removing a market from a watchlist.
#[derive(Debug, Clone)]
pub struct RemoveMarketResponse;

/// Reply to deleting a watchlist.
#[derive(Debug, Clone)]
pub struct DeleteWatchlistResponse;

/// `watchlists/{watchlist_id}`.
pub fn watchlist_path(watchlist_id: &str) -> (r: String)
    ensures
        r@ == "watchlists/"@ + watchlist_id@,
{
    prefixed("watchlists/", watchlist_id)
}

/// `watchlists/{watchlist_id}/{epic}`.
pub fn watchlist_market_path(watchlist_id: &str, epic: &Epic) -> (r: String)
    ensures
        r@ == "watchlists/"@ + watchlist_id@ + "/"@ + epic.0@,
{
    prefixed2("watchlists/", watchlist_id, "/", epic.0.as_str())
}

} // verus!
