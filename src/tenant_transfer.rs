//! Payouts to tenants.

use vstd::prelude::*;

verus! {

/// A tenant transfer represents a payout to a tenant's bank account.
#[derive(Debug, Clone)]
pub struct TenantTransfer {
    /// Unique identifier for the tenant transfer (prefixed with `ttr_`).
    pub id: String,
    /// Object type (always "tenant_transfer").
    pub object: String,
    /// Whether this transfer was created in live mode.
    pub livemode: bool,
    /// Transfer creation timestamp (Unix timestamp).
    pub created: i64,
    /// Tenant ID.
    pub tenant: String,
    /// Amount transferred (in smallest currency unit).
    pub amount: i64,
    /// Three-letter ISO currency code.
    pub currency: String,
    /// Transfer status.
    pub status: String,
    /// Summary of charges included in this transfer.
    pub summary: TenantTransferSummary,
    /// Scheduled transfer date (Unix timestamp, optional).
    pub scheduled_date: Option<i64>,
    /// Term ID (optional).
    pub term: Option<String>,
}

/// Summary of charges in a tenant transfer.
#[derive(Debug, Clone)]
pub struct TenantTransferSummary {
    /// Total charge amount.
    pub charge_amount: i64,
    /// Total charge count.
    pub charge_count: i64,
    /// Total charge fee.
    pub charge_fee: i64,
    /// Total platform fee.
    pub platform_fee: i64,
    /// Total refund amount.
    pub refund_amount: i64,
    /// Total refund count.
    pub refund_count: i64,
}

} // verus!
