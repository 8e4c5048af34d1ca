//! Statements of transactions.

use vstd::prelude::*;

verus! {

/// A statement represents a transaction details report.
#[derive(Debug, Clone)]
pub struct Statement {
    /// Unique identifier for the statement (prefixed with `st_`).
    pub id: String,
    /// Object type (always "statement").
    pub object: String,
    /// Whether this statement was created in live mode.
    pub livemode: bool,
    /// Statement creation timestamp (Unix timestamp).
    pub created: i64,
    /// Title of the statement (optional).
    pub title: Option<String>,
    /// Tenant ID (Platform API, optional).
    pub tenant: Option<String>,
    /// Term ID (optional).
    pub term: Option<String>,
    /// Balance ID (optional).
    pub balance_id: Option<String>,
    /// Statement type (optional).
    pub statement_type: Option<String>,
    /// Updated timestamp (Unix timestamp, optional).
    pub updated: Option<i64>,
}

/// Statement URLs response.
#[derive(Debug, Clone)]
pub struct StatementUrls {
    /// Object type (always "statement_urls").
    pub object: String,
    /// Expiration timestamp for the URLs (Unix timestamp).
    pub expires: i64,
    /// URL for the statement (optional).
    pub url: Option<String>,
}

} // verus!
