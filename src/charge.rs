//! Charges and their parameters.

use crate::card::{Card, CardThreeDSecureStatus};
use crate::form::{
    bool_field, int_field, pairs_view, push_bool, push_int, push_text, text_field, FormPair,
};
use crate::params::{
    entries_of, keys_unique, metadata_form, push_metadata, set_metadata, with_entry, EntriesView,
    ListParams, Metadata,
};
use crate::subscription::Subscription;
use vstd::prelude::*;

verus! {

/// A charge represents a payment against a card or customer.
#[derive(Debug, Clone)]
pub struct Charge {
    /// Unique identifier for the charge (prefixed with `ch_`).
    pub id: String,
    /// Object type (always "charge").
    pub object: String,
    /// Whether this charge was created in live mode.
    pub livemode: bool,
    /// Charge creation timestamp (Unix timestamp).
    pub created: i64,
    /// Amount in the smallest currency unit (e.g., cents for USD, yen for JPY).
    pub amount: i64,
    /// Three-letter ISO currency code (e.g., "jpy").
    pub currency: String,
    /// Whether the charge has been paid.
    pub paid: bool,
    /// Whether the charge has been captured (for auth-only charges).
    pub captured: bool,
    /// Timestamp when the charge was captured (Unix timestamp, optional).
    pub captured_at: Option<i64>,
    /// Card used for this charge (optional).
    pub card: Option<Card>,
    /// Customer ID (if charge was made against a customer, optional).
    pub customer: Option<String>,
    /// Description of the charge (optional).
    pub description: Option<String>,
    /// Failure code (if charge failed, optional).
    pub failure_code: Option<String>,
    /// Failure message (if charge failed, optional).
    pub failure_message: Option<String>,
    /// Fee rate applied to this charge (optional).
    pub fee_rate: Option<String>,
    /// Whether the charge has been refunded.
    pub refunded: bool,
    /// Amount refunded in the smallest currency unit.
    pub amount_refunded: i64,
    /// Reason for refund (optional).
    pub refund_reason: Option<String>,
    /// Subscription ID (if charge was created by a subscription, optional).
    pub subscription: Option<String>,
    /// Set of key-value pairs for storing additional information (optional).
    pub metadata: Option<Metadata>,
    /// Expiration timestamp for uncaptured charges (Unix timestamp, optional).
    pub expired_at: Option<i64>,
    /// 3D Secure status (optional).
    pub three_d_secure_status: Option<CardThreeDSecureStatus>,
    /// Platform API: Tenant ID (optional).
    pub tenant: Option<String>,
    /// Platform API: Platform fee amount (optional).
    pub platform_fee: Option<i64>,
    /// Platform API: Platform fee rate (optional).
    pub platform_fee_rate: Option<String>,
    /// Platform API: Total platform fee (optional).
    pub total_platform_fee: Option<i64>,
}

/// Parameters for creating a charge.
#[derive(Debug, Clone)]
pub struct CreateChargeParams {
    /// Amount in the smallest currency unit (JPY: 50-9999999).
    pub amount: i64,
    /// Three-letter ISO currency code (currently only "jpy" is supported).
    pub currency: String,
    /// Card token ID (required if customer is not provided).
    pub card: Option<String>,
    /// Customer ID (required if card is not provided).
    pub customer: Option<String>,
    /// Description of the charge.
    pub description: Option<String>,
    /// Whether to immediately capture the charge (default: true).
    pub capture: Option<bool>,
    /// Number of days before uncaptured charge expires (1-60, default: 7).
    pub expiry_days: Option<i64>,
    /// Set of key-value pairs for storing additional information.
    pub metadata: Option<Metadata>,
    /// Whether to use 3D Secure authentication.
    pub three_d_secure: Option<bool>,
    /// Platform API: Tenant ID.
    pub tenant: Option<String>,
    /// Platform API: Platform fee amount.
    pub platform_fee: Option<i64>,
}

impl CreateChargeParams {
    /// Create new charge parameters with an amount and currency.
    pub fn new(amount: i64, currency: &str) -> (r: Self)
        ensures
            r.amount == amount,
            r.currency@ == currency@,
            r.card is None,
            r.customer is None,
            r.description is None,
            r.capture is None,
            r.expiry_days is None,
            r.metadata is None,
            r.three_d_secure is None,
            r.tenant is None,
            r.platform_fee is None,
    {
        CreateChargeParams {
            amount,
            currency: String::from_str(currency),
            card: None,
            customer: None,
            description: None,
            capture: None,
            expiry_days: None,
            metadata: None,
            three_d_secure: None,
            tenant: None,
            platform_fee: None,
        }
    }

    /// Set the card token to charge.
    pub fn card(self, card: &str) -> (r: Self)
        ensures
            r.card matches Some(v) && v@ == card@,
            r == (CreateChargeParams { card: r.card, ..self }),
    {
        CreateChargeParams { card: Some(String::from_str(card)), ..self }
    }

    /// Set the customer to charge.
    pub fn customer(self, customer: &str) -> (r: Self)
        ensures
            r.customer matches Some(v) && v@ == customer@,
            r == (CreateChargeParams { customer: r.customer, ..self }),
    {
        CreateChargeParams { customer: Some(String::from_str(customer)), ..self }
    }

    /// Set the description.
    pub fn description(self, description: &str) -> (r: Self)
        ensures
            r.description matches Some(v) && v@ == description@,
            r == (CreateChargeParams { description: r.description, ..self }),
    {
        CreateChargeParams { description: Some(String::from_str(description)), ..self }
    }

    /// Set whether to capture immediately.
    pub fn capture(self, capture: bool) -> (r: Self)
        ensures
            r == (CreateChargeParams { capture: Some(capture), ..self }),
    {
        CreateChargeParams { capture: Some(capture), ..self }
    }

    /// Set the number of days before expiration for uncaptured charges.
    pub fn expiry_days(self, days: i64) -> (r: Self)
        ensures
            r == (CreateChargeParams { expiry_days: Some(days), ..self }),
    {
        CreateChargeParams { expiry_days: Some(days), ..self }
    }

    /// Add metadata to the charge.
    pub fn metadata(self, key: &str, value: &str) -> (r: Self)
        ensures
            r.metadata matches Some(m) && m@ == with_entry(entries_of(self.metadata), key@, value@),
            keys_unique(entries_of(self.metadata)) ==> keys_unique(entries_of(r.metadata)),
            r == (CreateChargeParams { metadata: r.metadata, ..self }),
    {
        let mut r = self;
        set_metadata(&mut r.metadata, key, value);
        r
    }

    /// Enable 3D Secure authentication.
    pub fn three_d_secure(self, enabled: bool) -> (r: Self)
        ensures
            r == (CreateChargeParams { three_d_secure: Some(enabled), ..self }),
    {
        CreateChargeParams { three_d_secure: Some(enabled), ..self }
    }

    /// Set platform fee (Platform API).
    pub fn platform_fee(self, fee: i64) -> (r: Self)
        ensures
            r == (CreateChargeParams { platform_fee: Some(fee), ..self }),
    {
        CreateChargeParams { platform_fee: Some(fee), ..self }
    }

    /// Set tenant (Platform API).
    pub fn tenant(self, tenant: &str) -> (r: Self)
        ensures
            r.tenant matches Some(v) && v@ == tenant@,
            r == (CreateChargeParams { tenant: r.tenant, ..self }),
    {
        CreateChargeParams { tenant: Some(String::from_str(tenant)), ..self }
    }

    /// The form pairs of the set fields, in declaration order.
    pub open spec fn form_view(&self) -> EntriesView {
        Seq::empty()
            + int_field("amount"@, Some(self.amount))
            + text_field("currency"@, Some(self.currency))
            + text_field("card"@, self.card)
            + text_field("customer"@, self.customer)
            + text_field("description"@, self.description)
            + bool_field("capture"@, self.capture)
            + int_field("expiry_days"@, self.expiry_days)
            + metadata_form(self.metadata)
            + bool_field("three_d_secure"@, self.three_d_secure)
            + text_field("tenant"@, self.tenant)
            + int_field("platform_fee"@, self.platform_fee)
    }

    /// The form pairs of the set fields, in declaration order.
    pub fn form_pairs(&self) -> (r: Vec<FormPair>)
        ensures
            pairs_view(r@) == self.form_view(),
    {
        let mut pairs: Vec<FormPair> = Vec::new();
        assert(pairs_view(pairs@) =~= Seq::empty());
        push_int(&mut pairs, "amount", Some(self.amount));
        push_text(&mut pairs, "currency", &Some(self.currency.clone()));
        push_text(&mut pairs, "card", &self.card);
        push_text(&mut pairs, "customer", &self.customer);
        push_text(&mut pairs, "description", &self.description);
        push_bool(&mut pairs, "capture", self.capture);
        push_int(&mut pairs, "expiry_days", self.expiry_days);
        push_metadata(&mut pairs, &self.metadata);
        push_bool(&mut pairs, "three_d_secure", self.three_d_secure);
        push_text(&mut pairs, "tenant", &self.tenant);
        push_int(&mut pairs, "platform_fee", self.platform_fee);
        pairs
    }
}

/// Parameters for updating a charge.
#[derive(Debug, Clone)]
pub struct UpdateChargeParams {
    /// Description of the charge.
    pub description: Option<String>,
    /// Set of key-value pairs for storing additional information.
    pub metadata: Option<Metadata>,
}

impl UpdateChargeParams {
    /// Create new update charge parameters.
    pub fn new() -> (r: Self)
        ensures
            r.description is None,
            r.metadata is None,
    {
        UpdateChargeParams { description: None, metadata: None }
    }

    /// Set the description.
    pub fn description(self, description: &str) -> (r: Self)
        ensures
            r.description matches Some(v) && v@ == description@,
            r == (UpdateChargeParams { description: r.description, ..self }),
    {
        UpdateChargeParams { description: Some(String::from_str(description)), ..self }
    }

    /// Add metadata to the charge.
    pub fn metadata(self, key: &str, value: &str) -> (r: Self)
        ensures
            r.metadata matches Some(m) && m@ == with_entry(entries_of(self.metadata), key@, value@),
            keys_unique(entries_of(self.metadata)) ==> keys_unique(entries_of(r.metadata)),
            r == (UpdateChargeParams { metadata: r.metadata, ..self }),
    {
        let mut r = self;
        set_metadata(&mut r.metadata, key, value);
        r
    }

    /// The form pairs of the set fields, in declaration order.
    pub open spec fn form_view(&self) -> EntriesView {
        Seq::empty() + text_field("description"@, self.description) + metadata_form(self.metadata)
    }

    /// The form pairs of the set fields, in declaration order.
    pub fn form_pairs(&self) -> (r: Vec<FormPair>)
        ensures
            pairs_view(r@) == self.form_view(),
    {
        let mut pairs: Vec<FormPair> = Vec::new();
        assert(pairs_view(pairs@) =~= Seq::empty());
        push_text(&mut pairs, "description", &self.description);
        push_metadata(&mut pairs, &self.metadata);
        pairs
    }
}

/// Parameters for refunding a charge.
#[derive(Debug, Clone)]
pub struct RefundParams {
    /// Amount to refund (optional, defaults to full charge amount).
    pub amount: Option<i64>,
    /// Reason for the refund (optional).
    pub refund_reason: Option<String>,
}

impl RefundParams {
    /// Create new refund parameters for a full refund.
    pub fn new() -> (r: Self)
        ensures
            r.amount is None,
            r.refund_reason is None,
    {
        RefundParams { amount: None, refund_reason: None }
    }

    /// Set the amount to refund (for partial refunds).
    pub fn amount(self, amount: i64) -> (r: Self)
        ensures
            r == (RefundParams { amount: Some(amount), ..self }),
    {
        RefundParams { amount: Some(amount), ..self }
    }

    /// Set the reason for the refund.
    pub fn reason(self, reason: &str) -> (r: Self)
        ensures
            r.refund_reason matches Some(v) && v@ == reason@,
            r == (RefundParams { refund_reason: r.refund_reason, ..self }),
    {
        RefundParams { refund_reason: Some(String::from_str(reason)), ..self }
    }

    /// The form pairs of the set fields, in declaration order.
    pub open spec fn form_view(&self) -> EntriesView {
        Seq::empty()
            + int_field("amount"@, self.amount)
            + text_field("refund_reason"@, self.refund_reason)
    }

    /// The form pairs of the set fields, in declaration order.
    pub fn form_pairs(&self) -> (r: Vec<FormPair>)
        ensures
            pairs_view(r@) == self.form_view(),
    {
        let mut pairs: Vec<FormPair> = Vec::new();
        assert(pairs_view(pairs@) =~= Seq::empty());
        push_int(&mut pairs, "amount", self.amount);
        push_text(&mut pairs, "refund_reason", &self.refund_reason);
        pairs
    }
}

/// Parameters for capturing a charge.
#[derive(Debug, Clone)]
pub struct CaptureParams {
    /// Amount to capture (optional, defaults to full authorized amount).
    pub amount: Option<i64>,
}

impl CaptureParams {
    /// Create new capture parameters for full capture.
    pub fn new() -> (r: Self)
        ensures
            r.amount is None,
    {
        CaptureParams { amount: None }
    }

    /// Set the amount to capture (for partial captures).
    pub fn amount(self, amount: i64) -> (r: Self)
        ensures
            r == (CaptureParams { amount: Some(amount), ..self }),
    {
        CaptureParams { amount: Some(amount), ..self }
    }

    /// The form pairs of the set fields, in declaration order.
    pub open spec fn form_view(&self) -> EntriesView {
        Seq::empty() + int_field("amount"@, self.amount)
    }

    /// The form pairs of the set fields, in declaration order.
    pub fn form_pairs(&self) -> (r: Vec<FormPair>)
        ensures
            pairs_view(r@) == self.form_view(),
    {
        let mut pairs: Vec<FormPair> = Vec::new();
        assert(pairs_view(pairs@) =~= Seq::empty());
        push_int(&mut pairs, "amount", self.amount);
        pairs
    }
}

/// Parameters for re-authorizing a charge.
#[derive(Debug, Clone)]
pub struct ReauthParams {
    /// Number of days before the new expiration (1-60, optional).
    pub expiry_days: Option<i64>,
}

impl ReauthParams {
    /// Create new reauth parameters.
    pub fn new() -> (r: Self)
        ensures
            r.expiry_days is None,
    {
        ReauthParams { expiry_days: None }
    }

    /// Set the number of days before expiration.
    pub fn expiry_days(self, days: i64) -> (r: Self)
        ensures
            r == (ReauthParams { expiry_days: Some(days), ..self }),
    {
        ReauthParams { expiry_days: Some(days), ..self }
    }

    /// The form pairs of the set fields, in declaration order.
    pub open spec fn form_view(&self) -> EntriesView {
        Seq::empty() + int_field("expiry_days"@, self.expiry_days)
    }

    /// The form pairs of the set fields, in declaration order.
    pub fn form_pairs(&self) -> (r: Vec<FormPair>)
        ensures
            pairs_view(r@) == self.form_view(),
    {
        let mut pairs: Vec<FormPair> = Vec::new();
        assert(pairs_view(pairs@) =~= Seq::empty());
        push_int(&mut pairs, "expiry_days", self.expiry_days);
        pairs
    }
}

/// Parameters for listing charges.
#[derive(Debug, Clone)]
pub struct ListChargeParams {
    /// Maximum number of items to return (default: 10, max: 100).
    pub limit: Option<i64>,
    /// Offset for pagination (default: 0).
    pub offset: Option<i64>,
    /// Return charges created since this timestamp (Unix timestamp).
    pub since: Option<i64>,
    /// Return charges created until this timestamp (Unix timestamp).
    pub until: Option<i64>,
    /// Filter by customer ID.
    pub customer: Option<String>,
    /// Filter by subscription ID.
    pub subscription: Option<String>,
    /// Filter by tenant ID (Platform API).
    pub tenant: Option<String>,
}

impl ListChargeParams {
    /// Create new list charge parameters.
    pub fn new() -> (r: Self)
        ensures
            r.limit is None,
            r.offset is None,
            r.since is None,
            r.until is None,
            r.customer is None,
            r.subscription is None,
            r.tenant is None,
    {
        ListChargeParams {
            limit: None,
            offset: None,
            since: None,
            until: None,
            customer: None,
            subscription: None,
            tenant: None,
        }
    }

    /// Set the limit for the number of items to return.
    pub fn limit(self, limit: i64) -> (r: Self)
        ensures
            r == (ListChargeParams { limit: Some(limit), ..self }),
    {
        ListChargeParams { limit: Some(limit), ..self }
    }

    /// Set the offset for pagination.
    pub fn offset(self, offset: i64) -> (r: Self)
        ensures
            r == (ListChargeParams { offset: Some(offset), ..self }),
    {
        ListChargeParams { offset: Some(offset), ..self }
    }

    /// Filter by customer ID.
    pub fn customer(self, customer: &str) -> (r: Self)
        ensures
            r.customer matches Some(v) && v@ == customer@,
            r == (ListChargeParams { customer: r.customer, ..self }),
    {
        ListChargeParams { customer: Some(String::from_str(customer)), ..self }
    }

    /// Filter by subscription ID.
    pub fn subscription(self, subscription: &str) -> (r: Self)
        ensures
            r.subscription matches Some(v) && v@ == subscription@,
            r == (ListChargeParams { subscription: r.subscription, ..self }),
    {
        ListChargeParams { subscription: Some(String::from_str(subscription)), ..self }
    }

    /// The form pairs of the set fields, in declaration order.
    pub open spec fn form_view(&self) -> EntriesView {
        Seq::empty()
            + int_field("limit"@, self.limit)
            + int_field("offset"@, self.offset)
            + int_field("since"@, self.since)
            + int_field("until"@, self.until)
            + text_field("customer"@, self.customer)
            + text_field("subscription"@, self.subscription)
            + text_field("tenant"@, self.tenant)
    }

    /// The form pairs of the set fields, in declaration order.
    pub fn form_pairs(&self) -> (r: Vec<FormPair>)
        ensures
            pairs_view(r@) == self.form_view(),
    {
        let mut pairs: Vec<FormPair> = Vec::new();
        assert(pairs_view(pairs@) =~= Seq::empty());
        push_int(&mut pairs, "limit", self.limit);
        push_int(&mut pairs, "offset", self.offset);
        push_int(&mut pairs, "since", self.since);
        push_int(&mut pairs, "until", self.until);
        push_text(&mut pairs, "customer", &self.customer);
        push_text(&mut pairs, "subscription", &self.subscription);
        push_text(&mut pairs, "tenant", &self.tenant);
        pairs
    }
}


impl From<ListParams> for ListChargeParams {
    fn from(params: ListParams) -> (r: Self) {
        ListChargeParams {
            limit: params.limit,
            offset: params.offset,
            since: params.since,
            until: params.until,
            customer: None,
            subscription: None,
            tenant: None,
        }
    }
}

impl vstd::std_specs::convert::FromSpecImpl<ListParams> for ListChargeParams {
    open spec fn obeys_from_spec() -> bool {
        true
    }

    open spec fn from_spec(params: ListParams) -> ListChargeParams {
        ListChargeParams {
            limit: params.limit,
            offset: params.offset,
            since: params.since,
            until: params.until,
            customer: None,
            subscription: None,
            tenant: None,
        }
    }
}

} // verus!
