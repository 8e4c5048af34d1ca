//! Account information of the authenticated merchant.

use crate::params::{Metadata};
use vstd::prelude::*;

verus! {

/// Account information for the authenticated merchant.
#[derive(Debug, Clone)]
pub struct Account {
    /// Unique identifier for the account (prefixed with `acct_`).
    pub id: String,
    /// Object type (always "account").
    pub object: String,
    /// Whether this account is in live mode.
    pub livemode: bool,
    /// Account creation timestamp (Unix timestamp).
    pub created: i64,
    /// Merchant email address (optional).
    pub email: Option<String>,
    /// Merchant name (optional).
    pub merchant_name: Option<String>,
    /// Business type (optional).
    pub business_type: Option<String>,
    /// Currencies enabled for this account.
    pub currencies_supported: Option<Vec<String>>,
    /// Default currency for this account.
    pub default_currency: Option<String>,
    /// Product detail information (optional).
    pub product_detail: Option<String>,
    /// Set of key-value pairs for storing additional information (optional).
    pub metadata: Option<Metadata>,
}

} // verus!
