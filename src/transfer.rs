//! Payouts to the bank account.

use vstd::prelude::*;

verus! {

/// A transfer represents a payout to your bank account.
#[derive(Debug, Clone)]
pub struct Transfer {
    /// Unique identifier for the transfer (prefixed with `tr_`).
    pub id: String,
    /// Object type (always "transfer").
    pub object: String,
    /// Whether this transfer was created in live mode.
    pub livemode: bool,
    /// Transfer creation timestamp (Unix timestamp).
    pub created: i64,
    /// Amount transferred (in smallest currency unit).
    pub amount: i64,
    /// Three-letter ISO currency code.
    pub currency: String,
    /// Transfer status ("pending", "paid", "failed", "stop", or "carried_forward").
    pub status: String,
    /// Summary of charges included in this transfer.
    pub summary: TransferSummary,
    /// Scheduled transfer date (Unix timestamp, optional).
    pub scheduled_date: Option<i64>,
    /// Bank information (optional).
    pub bank: Option<BankInfo>,
    /// Statement descriptor (optional).
    pub statement_descriptor: Option<String>,
    /// Term ID (optional).
    pub term: Option<String>,
}

/// Summary of charges in a transfer.
#[derive(Debug, Clone)]
pub struct TransferSummary {
    /// Total charge amount.
    pub charge_amount: i64,
    /// Total charge count.
    pub charge_count: i64,
    /// Total charge fee.
    pub charge_fee: i64,
    /// Total refund amount.
    pub refund_amount: i64,
    /// Total refund count.
    pub refund_count: i64,
}

/// Bank account information.
#[derive(Debug, Clone)]
pub struct BankInfo {
    /// Bank code.
    pub bank_code: String,
    /// Branch code.
    pub branch_code: String,
    /// Account type ("普通" or "当座").
    pub account_type: String,
    /// Account number.
    pub account_number: String,
    /// Account holder name.
    pub account_holder_name: String,
}

} // verus!
