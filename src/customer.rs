//! Customers and their parameters.

use crate::card::Card;
use crate::form::{pairs_view, push_text, text_field, FormPair};
use crate::list::ListResponse;
use crate::params::{
    entries_of, keys_unique, metadata_form, push_metadata, set_metadata, with_entry, EntriesView,
    Metadata,
};
use crate::subscription::Subscription;
use vstd::prelude::*;

verus! {

/// Represents either a Card object or a card ID string.
///
/// PAY.JP API returns card IDs by default, but can return full Card objects
/// when using the `expand` parameter.
#[derive(Debug, Clone)]
pub enum CardOrId {
    /// Full Card object (when expanded).
    Card(Card),
    /// Card ID string.
    Id(String),
}

/// A customer represents a buyer who can be charged multiple times.
#[derive(Debug, Clone)]
pub struct Customer {
    /// Unique identifier for the customer (prefixed with `cus_`).
    pub id: String,
    /// Object type (always "customer").
    pub object: String,
    /// Whether this customer was created in live mode.
    pub livemode: bool,
    /// Customer creation timestamp (Unix timestamp).
    pub created: i64,
    /// Customer's default card (optional).
    /// Can be either a card ID string or a full Card object if expanded.
    pub default_card: Option<CardOrId>,
    /// Customer's email address (optional).
    pub email: Option<String>,
    /// Customer description (optional).
    pub description: Option<String>,
    /// Set of key-value pairs for storing additional information (optional).
    pub metadata: Option<Metadata>,
    /// List of subscriptions for this customer (optional).
    pub subscriptions: Option<ListResponse<Subscription>>,
    /// Cards associated with this customer (optional).
    pub cards: Option<ListResponse<Card>>,
}

/// Parameters for creating a customer.
#[derive(Debug, Clone)]
pub struct CreateCustomerParams {
    /// Email address.
    pub email: Option<String>,
    /// Description.
    pub description: Option<String>,
    /// Card token ID to add as the default card.
    pub card: Option<String>,
    /// Set of key-value pairs for storing additional information.
    pub metadata: Option<Metadata>,
}

impl CreateCustomerParams {
    /// Create new customer parameters.
    pub fn new() -> (r: Self)
        ensures
            r.email is None,
            r.description is None,
            r.card is None,
            r.metadata is None,
    {
        CreateCustomerParams { email: None, description: None, card: None, metadata: None }
    }

    /// Set the email address.
    pub fn email(self, email: &str) -> (r: Self)
        ensures
            r.email matches Some(v) && v@ == email@,
            r == (CreateCustomerParams { email: r.email, ..self }),
    {
        CreateCustomerParams { email: Some(String::from_str(email)), ..self }
    }

    /// Set the description.
    pub fn description(self, description: &str) -> (r: Self)
        ensures
            r.description matches Some(v) && v@ == description@,
            r == (CreateCustomerParams { description: r.description, ..self }),
    {
        CreateCustomerParams { description: Some(String::from_str(description)), ..self }
    }

    /// Set the default card using a token.
    pub fn card(self, card: &str) -> (r: Self)
        ensures
            r.card matches Some(v) && v@ == card@,
            r == (CreateCustomerParams { card: r.card, ..self }),
    {
        CreateCustomerParams { card: Some(String::from_str(card)), ..self }
    }

    /// Add metadata to the customer.
    pub fn metadata(self, key: &str, value: &str) -> (r: Self)
        ensures
            r.metadata matches Some(m) && m@ == with_entry(entries_of(self.metadata), key@, value@),
            keys_unique(entries_of(self.metadata)) ==> keys_unique(entries_of(r.metadata)),
            r == (CreateCustomerParams { metadata: r.metadata, ..self }),
    {
        let mut r = self;
        set_metadata(&mut r.metadata, key, value);
        r
    }

    /// The form pairs of the set fields, in declaration order.
    pub open spec fn form_view(&self) -> EntriesView {
        Seq::empty()
            + text_field("email"@, self.email)
            + text_field("description"@, self.description)
            + text_field("card"@, self.card)
            + metadata_form(self.metadata)
    }

    /// The form pairs of the set fields, in declaration order.
    pub fn form_pairs(&self) -> (r: Vec<FormPair>)
        ensures
            pairs_view(r@) == self.form_view(),
    {
        let mut pairs: Vec<FormPair> = Vec::new();
        assert(pairs_view(pairs@) =~= Seq::empty());
        push_text(&mut pairs, "email", &self.email);
        push_text(&mut pairs, "description", &self.description);
        push_text(&mut pairs, "card", &self.card);
        push_metadata(&mut pairs, &self.metadata);
        pairs
    }
}

/// Parameters for updating a customer.
#[derive(Debug, Clone)]
pub struct UpdateCustomerParams {
    /// Email address.
    pub email: Option<String>,
    /// Description.
    pub description: Option<String>,
    /// Card token ID to set as the default card.
    pub default_card: Option<String>,
    /// Set of key-value pairs for storing additional information.
    pub metadata: Option<Metadata>,
}

impl UpdateCustomerParams {
    /// Create new update customer parameters.
    pub fn new() -> (r: Self)
        ensures
            r.email is None,
            r.description is None,
            r.default_card is None,
            r.metadata is None,
    {
        UpdateCustomerParams { email: None, description: None, default_card: None, metadata: None }
    }

    /// Set the email address.
    pub fn email(self, email: &str) -> (r: Self)
        ensures
            r.email matches Some(v) && v@ == email@,
            r == (UpdateCustomerParams { email: r.email, ..self }),
    {
        UpdateCustomerParams { email: Some(String::from_str(email)), ..self }
    }

    /// Set the description.
    pub fn description(self, description: &str) -> (r: Self)
        ensures
            r.description matches Some(v) && v@ == description@,
            r == (UpdateCustomerParams { description: r.description, ..self }),
    {
        UpdateCustomerParams { description: Some(String::from_str(description)), ..self }
    }

    /// Set the default card.
    pub fn default_card(self, card: &str) -> (r: Self)
        ensures
            r.default_card matches Some(v) && v@ == card@,
            r == (UpdateCustomerParams { default_card: r.default_card, ..self }),
    {
        UpdateCustomerParams { default_card: Some(String::from_str(card)), ..self }
    }

    /// Add metadata to the customer.
    pub fn metadata(self, key: &str, value: &str) -> (r: Self)
        ensures
            r.metadata matches Some(m) && m@ == with_entry(entries_of(self.metadata), key@, value@),
            keys_unique(entries_of(self.metadata)) ==> keys_unique(entries_of(r.metadata)),
            r == (UpdateCustomerParams { metadata: r.metadata, ..self }),
    {
        let mut r = self;
        set_metadata(&mut r.metadata, key, value);
        r
    }

    /// The form pairs of the set fields, in declaration order.
    pub open spec fn form_view(&self) -> EntriesView {
        Seq::empty()
            + text_field("email"@, self.email)
            + text_field("description"@, self.description)
            + text_field("default_card"@, self.default_card)
            + metadata_form(self.metadata)
    }

    /// The form pairs of the set fields, in declaration order.
    pub fn form_pairs(&self) -> (r: Vec<FormPair>)
        ensures
            pairs_view(r@) == self.form_view(),
    {
        let mut pairs: Vec<FormPair> = Vec::new();
        assert(pairs_view(pairs@) =~= Seq::empty());
        push_text(&mut pairs, "email", &self.email);
        push_text(&mut pairs, "description", &self.description);
        push_text(&mut pairs, "default_card", &self.default_card);
        push_metadata(&mut pairs, &self.metadata);
        pairs
    }
}

/// Response from deleting a customer.
#[derive(Debug, Clone)]
pub struct DeletedCustomer {
    /// Customer ID.
    pub id: String,
    /// Whether the deletion was successful.
    pub deleted: bool,
    /// Whether this customer was in live mode.
    pub livemode: bool,
}

} // verus!
