//! Aggregation periods of transactions.

use vstd::prelude::*;

verus! {

/// A term represents an aggregation period for transactions.
#[derive(Debug, Clone)]
pub struct Term {
    /// Unique identifier for the term (prefixed with `tm_`).
    pub id: String,
    /// Object type (always "term").
    pub object: String,
    /// Whether this term was created in live mode.
    pub livemode: bool,
    /// Start date of the term (Unix timestamp, optional).
    pub start_at: Option<i64>,
    /// End date of the term (Unix timestamp, optional).
    pub end_at: Option<i64>,
    /// Charge count during this term.
    pub charge_count: i64,
    /// Refund count during this term.
    pub refund_count: i64,
    /// Dispute count during this term (optional).
    pub dispute_count: Option<i64>,
}

} // verus!
