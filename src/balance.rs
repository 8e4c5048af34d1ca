//! Balances of the account.

use vstd::prelude::*;

verus! {

/// A balance represents the account balance state at a specific point in time.
#[derive(Debug, Clone)]
pub struct Balance {
    /// Unique identifier for the balance (prefixed with `ba_`).
    pub id: String,
    /// Object type (always "balance").
    pub object: String,
    /// Whether this balance was created in live mode.
    pub livemode: bool,
    /// Balance creation timestamp (Unix timestamp).
    pub created: i64,
    /// Total balance amount.
    pub total: i64,
    /// Available balance amount.
    pub available: i64,
    /// Pending balance amount.
    pub pending: i64,
    /// Balance state ("processing", "confirmed", etc., optional).
    pub state: Option<String>,
    /// Tenant ID (Platform API, optional).
    pub tenant: Option<String>,
    /// Bank information (optional).
    pub bank_info: Option<BankInfo>,
    /// Closed at timestamp (Unix timestamp, optional).
    pub closed_at: Option<i64>,
    /// Due date timestamp (Unix timestamp, optional).
    pub due_date: Option<i64>,
}

/// Bank account information.
#[derive(Debug, Clone)]
pub struct BankInfo {
    /// Bank code.
    pub bank_code: String,
    /// Branch code.
    pub branch_code: String,
    /// Account type.
    pub account_type: String,
    /// Account number.
    pub account_number: String,
    /// Account holder name.
    pub account_holder_name: String,
}

} // verus!
