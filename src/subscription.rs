//! Subscriptions and their parameters.

use crate::form::{
    bool_field, int_field, pairs_view, push_bool, push_int, push_text, text_field, FormPair,
};
use crate::params::{
    entries_of, keys_unique, metadata_form, push_metadata, set_metadata, with_entry, EntriesView,
    Metadata,
};
use crate::plan::Plan;
use vstd::prelude::*;

verus! {

/// A subscription represents a recurring payment for a customer.
#[derive(Debug, Clone)]
pub struct Subscription {
    /// Unique identifier for the subscription (prefixed with `sub_`).
    pub id: String,
    /// Object type (always "subscription").
    pub object: String,
    /// Whether this subscription was created in live mode.
    pub livemode: bool,
    /// Subscription creation timestamp (Unix timestamp).
    pub created: i64,
    /// Customer ID associated with this subscription.
    pub customer: String,
    /// Plan details for this subscription.
    pub plan: Plan,
    /// Subscription status.
    pub status: SubscriptionStatus,
    /// Timestamp when the subscription started (Unix timestamp).
    pub start: i64,
    /// Timestamp when the trial period ends (Unix timestamp, optional).
    pub trial_end: Option<i64>,
    /// Timestamp when the subscription was paused (Unix timestamp, optional).
    pub paused_at: Option<i64>,
    /// Timestamp when the subscription was canceled (Unix timestamp, optional).
    pub canceled_at: Option<i64>,
    /// Timestamp when the subscription ends/ended (Unix timestamp, optional).
    pub current_period_end: Option<i64>,
    /// Timestamp when the current period started (Unix timestamp, optional).
    pub current_period_start: Option<i64>,
    /// Timestamp when the subscription was resumed (Unix timestamp, optional).
    pub resumed_at: Option<i64>,
    /// Whether to prorate when updating the subscription.
    pub prorate: Option<bool>,
    /// Set of key-value pairs for storing additional information (optional).
    pub metadata: Option<Metadata>,
}

/// Status of a subscription.
#[derive(Debug, Clone, Copy, PartialEq, Eq, Structural)]
pub enum SubscriptionStatus {
    /// Subscription is active and will be charged.
    Active,
    /// Subscription is in trial period.
    Trial,
    /// Subscription has been canceled.
    Canceled,
    /// Subscription has been paused.
    Paused,
}

/// Parameters for creating a subscription.
#[derive(Debug, Clone)]
pub struct CreateSubscriptionParams {
    /// Customer ID.
    pub customer: String,
    /// Plan ID.
    pub plan: String,
    /// Trial end date as Unix timestamp (optional).
    pub trial_end: Option<i64>,
    /// Whether to prorate charges.
    pub prorate: Option<bool>,
    /// Set of key-value pairs for storing additional information.
    pub metadata: Option<Metadata>,
}

impl CreateSubscriptionParams {
    /// Create new subscription parameters.
    pub fn new(customer: &str, plan: &str) -> (r: Self)
        ensures
            r.customer@ == customer@,
            r.plan@ == plan@,
            r.trial_end is None,
            r.prorate is None,
            r.metadata is None,
    {
        CreateSubscriptionParams {
            customer: String::from_str(customer),
            plan: String::from_str(plan),
            trial_end: None,
            prorate: None,
            metadata: None,
        }
    }

    /// Set the trial end timestamp.
    pub fn trial_end(self, timestamp: i64) -> (r: Self)
        ensures
            r == (CreateSubscriptionParams { trial_end: Some(timestamp), ..self }),
    {
        CreateSubscriptionParams { trial_end: Some(timestamp), ..self }
    }

    /// Set whether to prorate charges.
    pub fn prorate(self, prorate: bool) -> (r: Self)
        ensures
            r == (CreateSubscriptionParams { prorate: Some(prorate), ..self }),
    {
        CreateSubscriptionParams { prorate: Some(prorate), ..self }
    }

    /// Add metadata to the subscription.
    pub fn metadata(self, key: &str, value: &str) -> (r: Self)
        ensures
            r.metadata matches Some(m) && m@ == with_entry(entries_of(self.metadata), key@, value@),
            keys_unique(entries_of(self.metadata)) ==> keys_unique(entries_of(r.metadata)),
            r == (CreateSubscriptionParams { metadata: r.metadata, ..self }),
    {
        let mut r = self;
        set_metadata(&mut r.metadata, key, value);
        r
    }

    /// The form pairs of the set fields, in declaration order.
    pub open spec fn form_view(&self) -> EntriesView {
        Seq::empty()
            + text_field("customer"@, Some(self.customer))
            + text_field("plan"@, Some(self.plan))
            + int_field("trial_end"@, self.trial_end)
            + bool_field("prorate"@, self.prorate)
            + metadata_form(self.metadata)
    }

    /// The form pairs of the set fields, in declaration order.
    pub fn form_pairs(&self) -> (r: Vec<FormPair>)
        ensures
            pairs_view(r@) == self.form_view(),
    {
        let mut pairs: Vec<FormPair> = Vec::new();
        assert(pairs_view(pairs@) =~= Seq::empty());
        push_text(&mut pairs, "customer", &Some(self.customer.clone()));
        push_text(&mut pairs, "plan", &Some(self.plan.clone()));
        push_int(&mut pairs, "trial_end", self.trial_end);
        push_bool(&mut pairs, "prorate", self.prorate);
        push_metadata(&mut pairs, &self.metadata);
        pairs
    }
}

/// Parameters for updating a subscription.
#[derive(Debug, Clone)]
pub struct UpdateSubscriptionParams {
    /// New plan ID (optional).
    pub plan: Option<String>,
    /// Trial end date as Unix timestamp (optional).
    pub trial_end: Option<i64>,
    /// Whether to prorate charges.
    pub prorate: Option<bool>,
    /// Set of key-value pairs for storing additional information.
    pub metadata: Option<Metadata>,
}

impl UpdateSubscriptionParams {
    /// Create new update subscription parameters.
    pub fn new() -> (r: Self)
        ensures
            r.plan is None,
            r.trial_end is None,
            r.prorate is None,
            r.metadata is None,
    {
        UpdateSubscriptionParams { plan: None, trial_end: None, prorate: None, metadata: None }
    }

    /// Set a new plan.
    pub fn plan(self, plan: &str) -> (r: Self)
        ensures
            r.plan matches Some(v) && v@ == plan@,
            r == (UpdateSubscriptionParams { plan: r.plan, ..self }),
    {
        UpdateSubscriptionParams { plan: Some(String::from_str(plan)), ..self }
    }

    /// Set the trial end timestamp.
    pub fn trial_end(self, timestamp: i64) -> (r: Self)
        ensures
            r == (UpdateSubscriptionParams { trial_end: Some(timestamp), ..self }),
    {
        UpdateSubscriptionParams { trial_end: Some(timestamp), ..self }
    }

    /// Set whether to prorate charges.
    pub fn prorate(self, prorate: bool) -> (r: Self)
        ensures
            r == (UpdateSubscriptionParams { prorate: Some(prorate), ..self }),
    {
        UpdateSubscriptionParams { prorate: Some(prorate), ..self }
    }

    /// Add metadata to the subscription.
    pub fn metadata(self, key: &str, value: &str) -> (r: Self)
        ensures
            r.metadata matches Some(m) && m@ == with_entry(entries_of(self.metadata), key@, value@),
            keys_unique(entries_of(self.metadata)) ==> keys_unique(entries_of(r.metadata)),
            r == (UpdateSubscriptionParams { metadata: r.metadata, ..self }),
    {
        let mut r = self;
        set_metadata(&mut r.metadata, key, value);
        r
    }

    /// The form pairs of the set fields, in declaration order.
    pub open spec fn form_view(&self) -> EntriesView {
        Seq::empty()
            + text_field("plan"@, self.plan)
            + int_field("trial_end"@, self.trial_end)
            + bool_field("prorate"@, self.prorate)
            + metadata_form(self.metadata)
    }

    /// The form pairs of the set fields, in declaration order.
    pub fn form_pairs(&self) -> (r: Vec<FormPair>)
        ensures
            pairs_view(r@) == self.form_view(),
    {
        let mut pairs: Vec<FormPair> = Vec::new();
        assert(pairs_view(pairs@) =~= Seq::empty());
        push_text(&mut pairs, "plan", &self.plan);
        push_int(&mut pairs, "trial_end", self.trial_end);
        push_bool(&mut pairs, "prorate", self.prorate);
        push_metadata(&mut pairs, &self.metadata);
        pairs
    }
}

/// Parameters for pausing a subscription.
#[derive(Debug, Clone)]
pub struct PauseSubscriptionParams {}

impl PauseSubscriptionParams {
    /// Create new pause subscription parameters.
    pub fn new() -> (r: Self)
        ensures
    {
        PauseSubscriptionParams {  }
    }

    /// The form pairs of the set fields, in declaration order.
    pub open spec fn form_view(&self) -> EntriesView {
        Seq::empty()
    }

    /// The form pairs of the set fields, in declaration order.
    pub fn form_pairs(&self) -> (r: Vec<FormPair>)
        ensures
            pairs_view(r@) == self.form_view(),
    {
        let mut pairs: Vec<FormPair> = Vec::new();
        assert(pairs_view(pairs@) =~= Seq::empty());
        pairs
    }
}

/// Parameters for resuming a subscription.
#[derive(Debug, Clone)]
pub struct ResumeSubscriptionParams {
    /// Whether to charge for the period during which the subscription was paused.
    pub prorate: Option<bool>,
}

impl ResumeSubscriptionParams {
    /// Create new resume subscription parameters.
    pub fn new() -> (r: Self)
        ensures
            r.prorate is None,
    {
        ResumeSubscriptionParams { prorate: None }
    }

    /// Set whether to prorate charges for the paused period.
    pub fn prorate(self, prorate: bool) -> (r: Self)
        ensures
            r == (ResumeSubscriptionParams { prorate: Some(prorate), ..self }),
    {
        ResumeSubscriptionParams { prorate: Some(prorate), ..self }
    }

    /// The form pairs of the set fields, in declaration order.
    pub open spec fn form_view(&self) -> EntriesView {
        Seq::empty() + bool_field("prorate"@, self.prorate)
    }

    /// The form pairs of the set fields, in declaration order.
    pub fn form_pairs(&self) -> (r: Vec<FormPair>)
        ensures
            pairs_view(r@) == self.form_view(),
    {
        let mut pairs: Vec<FormPair> = Vec::new();
        assert(pairs_view(pairs@) =~= Seq::empty());
        push_bool(&mut pairs, "prorate", self.prorate);
        pairs
    }
}

/// Parameters for canceling a subscription.
#[derive(Debug, Clone)]
pub struct CancelSubscriptionParams {}

impl CancelSubscriptionParams {
    /// Create new cancel subscription parameters.
    pub fn new() -> (r: Self)
        ensures
    {
        CancelSubscriptionParams {  }
    }

    /// The form pairs of the set fields, in declaration order.
    pub open spec fn form_view(&self) -> EntriesView {
        Seq::empty()
    }

    /// The form pairs of the set fields, in declaration order.
    pub fn form_pairs(&self) -> (r: Vec<FormPair>)
        ensures
            pairs_view(r@) == self.form_view(),
    {
        let mut pairs: Vec<FormPair> = Vec::new();
        assert(pairs_view(pairs@) =~= Seq::empty());
        pairs
    }
}

/// Response from deleting a subscription.
#[derive(Debug, Clone)]
pub struct DeletedSubscription {
    /// Subscription ID.
    pub id: String,
    /// Whether the deletion was successful.
    pub deleted: bool,
    /// Whether this subscription was in live mode.
    pub livemode: bool,
}

} // verus!
