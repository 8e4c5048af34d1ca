//! Recurring billing plans and their parameters.

use crate::form::{
    int_field, pairs_view, push_int, push_pair, push_text, text_field, widen, widen_i32, FormPair,
};
use crate::params::{
    entries_of, keys_unique, metadata_form, push_metadata, set_metadata, with_entry, EntriesView,
    Metadata,
};
use vstd::prelude::*;

verus! {

/// A plan defines the recurring billing details for subscriptions.
#[derive(Debug, Clone)]
pub struct Plan {
    /// Unique identifier for the plan (prefixed with `pln_`).
    pub id: String,
    /// Object type (always "plan").
    pub object: String,
    /// Whether this plan was created in live mode.
    pub livemode: bool,
    /// Plan creation timestamp (Unix timestamp).
    pub created: i64,
    /// Amount to charge per billing interval (in smallest currency unit).
    pub amount: i64,
    /// Three-letter ISO currency code (e.g., "jpy").
    pub currency: String,
    /// Billing interval ("month" or "year").
    pub interval: PlanInterval,
    /// Plan name (optional).
    pub name: Option<String>,
    /// Number of trial days before first charge (optional).
    pub trial_days: Option<i64>,
    /// Billing day of month (1-31, optional).
    pub billing_day: Option<i32>,
    /// Set of key-value pairs for storing additional information (optional).
    pub metadata: Option<Metadata>,
}

/// Billing interval for a plan.
#[derive(Debug, Clone, Copy, PartialEq, Eq, Structural)]
pub enum PlanInterval {
    /// Monthly billing.
    Month,
    /// Yearly billing.
    Year,
}

/// Parameters for creating a plan.
#[derive(Debug, Clone)]
pub struct CreatePlanParams {
    /// Amount to charge per billing interval (in smallest currency unit).
    pub amount: i64,
    /// Three-letter ISO currency code (currently only "jpy" is supported).
    pub currency: String,
    /// Billing interval ("month" or "year").
    pub interval: PlanInterval,
    /// Unique plan ID (optional, auto-generated if not provided).
    pub id: Option<String>,
    /// Plan name.
    pub name: Option<String>,
    /// Number of trial days before first charge (0-36500).
    pub trial_days: Option<i64>,
    /// Billing day of month (1-31).
    pub billing_day: Option<i32>,
    /// Set of key-value pairs for storing additional information.
    pub metadata: Option<Metadata>,
}

impl CreatePlanParams {
    /// Create new plan parameters.
    pub fn new(amount: i64, currency: &str, interval: PlanInterval) -> (r: Self)
        ensures
            r.amount == amount,
            r.currency@ == currency@,
            r.interval == interval,
            r.id is None,
            r.name is None,
            r.trial_days is None,
            r.billing_day is None,
            r.metadata is None,
    {
        CreatePlanParams {
            amount,
            currency: String::from_str(currency),
            interval,
            id: None,
            name: None,
            trial_days: None,
            billing_day: None,
            metadata: None,
        }
    }

    /// Set a custom plan ID.
    pub fn id(self, id: &str) -> (r: Self)
        ensures
            r.id matches Some(v) && v@ == id@,
            r == (CreatePlanParams { id: r.id, ..self }),
    {
        CreatePlanParams { id: Some(String::from_str(id)), ..self }
    }

    /// Set the plan name.
    pub fn name(self, name: &str) -> (r: Self)
        ensures
            r.name matches Some(v) && v@ == name@,
            r == (CreatePlanParams { name: r.name, ..self }),
    {
        CreatePlanParams { name: Some(String::from_str(name)), ..self }
    }

    /// Set the number of trial days.
    pub fn trial_days(self, days: i64) -> (r: Self)
        ensures
            r == (CreatePlanParams { trial_days: Some(days), ..self }),
    {
        CreatePlanParams { trial_days: Some(days), ..self }
    }

    /// Set the billing day of month.
    pub fn billing_day(self, day: i32) -> (r: Self)
        ensures
            r == (CreatePlanParams { billing_day: Some(day), ..self }),
    {
        CreatePlanParams { billing_day: Some(day), ..self }
    }

    /// Add metadata to the plan.
    pub fn metadata(self, key: &str, value: &str) -> (r: Self)
        ensures
            r.metadata matches Some(m) && m@ == with_entry(entries_of(self.metadata), key@, value@),
            keys_unique(entries_of(self.metadata)) ==> keys_unique(entries_of(r.metadata)),
            r == (CreatePlanParams { metadata: r.metadata, ..self }),
    {
        let mut r = self;
        set_metadata(&mut r.metadata, key, value);
        r
    }

    /// The form pairs of the set fields, in declaration order.
    pub open spec fn form_view(&self) -> EntriesView {
        Seq::empty()
            + int_field("amount"@, Some(self.amount))
            + text_field("currency"@, Some(self.currency))
            + seq![("interval"@, interval_text(self.interval))]
            + text_field("id"@, self.id)
            + text_field("name"@, self.name)
            + int_field("trial_days"@, self.trial_days)
            + int_field("billing_day"@, widen(self.billing_day))
            + metadata_form(self.metadata)
    }

    /// The form pairs of the set fields, in declaration order.
    pub fn form_pairs(&self) -> (r: Vec<FormPair>)
        ensures
            pairs_view(r@) == self.form_view(),
    {
        let mut pairs: Vec<FormPair> = Vec::new();
        assert(pairs_view(pairs@) =~= Seq::empty());
        push_int(&mut pairs, "amount", Some(self.amount));
        push_text(&mut pairs, "currency", &Some(self.currency.clone()));
        push_pair(&mut pairs, String::from_str("interval"), String::from_str(self.interval.text()));
        push_text(&mut pairs, "id", &self.id);
        push_text(&mut pairs, "name", &self.name);
        push_int(&mut pairs, "trial_days", self.trial_days);
        push_int(&mut pairs, "billing_day", widen_i32(self.billing_day));
        push_metadata(&mut pairs, &self.metadata);
        pairs
    }
}

/// Parameters for updating a plan.
#[derive(Debug, Clone)]
pub struct UpdatePlanParams {
    /// Plan name.
    pub name: Option<String>,
    /// Number of trial days before first charge.
    pub trial_days: Option<i64>,
    /// Billing day of month (1-31).
    pub billing_day: Option<i32>,
    /// Set of key-value pairs for storing additional information.
    pub metadata: Option<Metadata>,
}

impl UpdatePlanParams {
    /// Create new update plan parameters.
    pub fn new() -> (r: Self)
        ensures
            r.name is None,
            r.trial_days is None,
            r.billing_day is None,
            r.metadata is None,
    {
        UpdatePlanParams { name: None, trial_days: None, billing_day: None, metadata: None }
    }

    /// Set the plan name.
    pub fn name(self, name: &str) -> (r: Self)
        ensures
            r.name matches Some(v) && v@ == name@,
            r == (UpdatePlanParams { name: r.name, ..self }),
    {
        UpdatePlanParams { name: Some(String::from_str(name)), ..self }
    }

    /// Set the number of trial days.
    pub fn trial_days(self, days: i64) -> (r: Self)
        ensures
            r == (UpdatePlanParams { trial_days: Some(days), ..self }),
    {
        UpdatePlanParams { trial_days: Some(days), ..self }
    }

    /// Set the billing day of month.
    pub fn billing_day(self, day: i32) -> (r: Self)
        ensures
            r == (UpdatePlanParams { billing_day: Some(day), ..self }),
    {
        UpdatePlanParams { billing_day: Some(day), ..self }
    }

    /// Add metadata to the plan.
    pub fn metadata(self, key: &str, value: &str) -> (r: Self)
        ensures
            r.metadata matches Some(m) && m@ == with_entry(entries_of(self.metadata), key@, value@),
            keys_unique(entries_of(self.metadata)) ==> keys_unique(entries_of(r.metadata)),
            r == (UpdatePlanParams { metadata: r.metadata, ..self }),
    {
        let mut r = self;
        set_metadata(&mut r.metadata, key, value);
        r
    }

    /// The form pairs of the set fields, in declaration order.
    pub open spec fn form_view(&self) -> EntriesView {
        Seq::empty()
            + text_field("name"@, self.name)
            + int_field("trial_days"@, self.trial_days)
            + int_field("billing_day"@, widen(self.billing_day))
            + metadata_form(self.metadata)
    }

    /// The form pairs of the set fields, in declaration order.
    pub fn form_pairs(&self) -> (r: Vec<FormPair>)
        ensures
            pairs_view(r@) == self.form_view(),
    {
        let mut pairs: Vec<FormPair> = Vec::new();
        assert(pairs_view(pairs@) =~= Seq::empty());
        push_text(&mut pairs, "name", &self.name);
        push_int(&mut pairs, "trial_days", self.trial_days);
        push_int(&mut pairs, "billing_day", widen_i32(self.billing_day));
        push_metadata(&mut pairs, &self.metadata);
        pairs
    }
}

/// Response from deleting a plan.
#[derive(Debug, Clone)]
pub struct DeletedPlan {
    /// Plan ID.
    pub id: String,
    /// Whether the deletion was successful.
    pub deleted: bool,
    /// Whether this plan was in live mode.
    pub livemode: bool,
}


/// The form value of a billing interval.
pub open spec fn interval_text(i: PlanInterval) -> Seq<char> {
    match i {
        PlanInterval::Month => "month"@,
        PlanInterval::Year => "year"@,
    }
}

impl PlanInterval {
    /// The form value of the interval.
    pub fn text(&self) -> (r: &'static str)
        ensures
            r@ == interval_text(*self),
    {
        match self {
            PlanInterval::Month => "month",
            PlanInterval::Year => "year",
        }
    }
}

} // verus!
