//! The accounts domain: account kinds and preferences.

use vstd::prelude::*;

verus! {

/// Kind of a trading account.
#[derive(Debug, Clone, Copy, PartialEq, Eq, Structural)]
pub enum AccountType {
    Cfd,
    Physical,
    Spreadbet,
}

impl AccountType {
    /// The wire name: `CFD`, `PHYSICAL` or `SPREADBET`.
    pub fn as_str(&self) -> (r: &'static str)
        ensures
            *self == AccountType::Cfd ==> r@ == "CFD"@,
            *self == AccountType::Physical ==> r@ == "PHYSICAL"@,
            *self == AccountType::Spreadbet ==> r@ == "SPREADBET"@,
    {
        match self {
            AccountType::Cfd => "CFD",
            AccountType::Physical => "PHYSICAL",
            AccountType::Spreadbet => "SPREADBET",
        }
    }
}

/// Account preferences.
#[derive(Debug, Clone, Copy, PartialEq, Eq, Default)]
pub struct AccountPreferences {
    pub trailing_stops_enabled: bool,
}

/// Request to update account preferences.
#[derive(Debug, Clone, Copy)]
pub struct UpdatePreferences {
    pub trailing_stops_enabled: bool,
}

/// The wire form of [`UpdatePreferences`]: IG expects the flag as the
/// string `"true"` or `"false"`.
#[derive(Debug, Clone, Copy)]
pub struct UpdatePreferencesWire {
    pub trailing_stops_enabled: &'static str,
}

impl UpdatePreferences {
    /// The wire form of the request.
    pub fn to_wire(&self) -> (r: UpdatePreferencesWire)
        ensures
            self.trailing_stops_enabled ==> r.trailing_stops_enabled@ == "true"@,
            !self.trailing_stops_enabled ==> r.trailing_stops_enabled@ == "false"@,
    {
        UpdatePreferencesWire {
            trailing_stops_enabled: if self.trailing_stops_enabled {
                "true"
            } else {
                "false"
            },
        }
    }
}

} // verus!
