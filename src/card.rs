//! Cards of customers and their parameters.

use crate::form::{
    bool_field, int_field, pairs_view, push_bool, push_int, push_text, text_field, widen,
    widen_i32, FormPair,
};
use crate::params::{
    entries_of, keys_unique, metadata_form, push_metadata, set_metadata, with_entry, EntriesView,
    Metadata,
};
use vstd::prelude::*;

verus! {

/// A card object represents a credit or debit card associated with a customer.
#[derive(Debug, Clone)]
pub struct Card {
    /// Unique identifier for the card (prefixed with `car_`).
    pub id: String,
    /// Object type (always "card").
    pub object: String,
    /// Whether this card was created in live mode.
    pub livemode: bool,
    /// Card creation timestamp (Unix timestamp).
    pub created: i64,
    /// Customer ID this card belongs to (optional).
    pub customer: Option<String>,
    /// Card brand (e.g., "Visa", "MasterCard", "JCB", "American Express", "Diners Club", "Discover").
    pub brand: String,
    /// Card CVC check result (e.g., "passed", "failed", "unchecked").
    pub cvc_check: Option<String>,
    /// Card expiration month (1-12).
    pub exp_month: i32,
    /// Card expiration year (4 digits).
    pub exp_year: i32,
    /// Fingerprint for duplicate detection.
    pub fingerprint: Option<String>,
    /// Last 4 digits of the card number.
    pub last4: String,
    /// Cardholder name (optional).
    pub name: Option<String>,
    /// Address line 1 (optional).
    pub address_line1: Option<String>,
    /// Address line 2 (optional).
    pub address_line2: Option<String>,
    /// Address city (optional).
    pub address_city: Option<String>,
    /// Address state/prefecture (optional).
    pub address_state: Option<String>,
    /// Address ZIP/postal code (optional).
    pub address_zip: Option<String>,
    /// Address ZIP check result (optional).
    pub address_zip_check: Option<String>,
    /// Address country (optional).
    pub country: Option<String>,
    /// 3D Secure support status (optional).
    pub three_d_secure_status: Option<CardThreeDSecureStatus>,
    /// Email address (optional).
    pub email: Option<String>,
    /// Phone number (optional).
    pub phone: Option<String>,
    /// Set of key-value pairs for storing additional information.
    pub metadata: Option<Metadata>,
}

/// 3D Secure status for a card.
#[derive(Debug, Clone, Copy, PartialEq, Eq, Structural)]
pub enum CardThreeDSecureStatus {
    /// 3D Secure verification was not performed.
    Unverified,
    /// 3D Secure verification was successful.
    Verified,
    /// 3D Secure verification was attempted.
    Attempted,
    /// 3D Secure verification failed.
    Failed,
    /// An error occurred during 3D Secure verification.
    Error,
}

/// Parameters for creating a card.
#[derive(Debug, Clone)]
pub struct CreateCardParams {
    /// Card token ID or raw card details token.
    pub card: Option<String>,
    /// Set of key-value pairs for storing additional information.
    pub metadata: Option<Metadata>,
    /// Whether to set this card as the default for the customer.
    pub default: Option<bool>,
}

impl CreateCardParams {
    /// Create new card parameters with a token.
    pub fn new(card_token: &str) -> (r: Self)
        ensures
            r.card matches Some(v) && v@ == card_token@,
            r.metadata is None,
            r.default is None,
    {
        CreateCardParams { card: Some(String::from_str(card_token)), metadata: None, default: None }
    }

    /// Add metadata to the card.
    pub fn metadata(self, key: &str, value: &str) -> (r: Self)
        ensures
            r.metadata matches Some(m) && m@ == with_entry(entries_of(self.metadata), key@, value@),
            keys_unique(entries_of(self.metadata)) ==> keys_unique(entries_of(r.metadata)),
            r == (CreateCardParams { metadata: r.metadata, ..self }),
    {
        let mut r = self;
        set_metadata(&mut r.metadata, key, value);
        r
    }

    /// Set this card as the default for the customer.
    pub fn set_default(self, default: bool) -> (r: Self)
        ensures
            r == (CreateCardParams { default: Some(default), ..self }),
    {
        CreateCardParams { default: Some(default), ..self }
    }

    /// The form pairs of the set fields, in declaration order.
    pub open spec fn form_view(&self) -> EntriesView {
        Seq::empty()
            + text_field("card"@, self.card)
            + metadata_form(self.metadata)
            + bool_field("default"@, self.default)
    }

    /// The form pairs of the set fields, in declaration order.
    pub fn form_pairs(&self) -> (r: Vec<FormPair>)
        ensures
            pairs_view(r@) == self.form_view(),
    {
        let mut pairs: Vec<FormPair> = Vec::new();
        assert(pairs_view(pairs@) =~= Seq::empty());
        push_text(&mut pairs, "card", &self.card);
        push_metadata(&mut pairs, &self.metadata);
        push_bool(&mut pairs, "default", self.default);
        pairs
    }
}

/// Parameters for updating a card.
#[derive(Debug, Clone)]
pub struct UpdateCardParams {
    /// Card expiration month (1-12).
    pub exp_month: Option<i32>,
    /// Card expiration year (4 digits).
    pub exp_year: Option<i32>,
    /// Cardholder name.
    pub name: Option<String>,
    /// Address line 1.
    pub address_line1: Option<String>,
    /// Address line 2.
    pub address_line2: Option<String>,
    /// Address city.
    pub address_city: Option<String>,
    /// Address state/prefecture.
    pub address_state: Option<String>,
    /// Address ZIP/postal code.
    pub address_zip: Option<String>,
    /// Address country.
    pub country: Option<String>,
    /// Email address.
    pub email: Option<String>,
    /// Phone number.
    pub phone: Option<String>,
    /// Set of key-value pairs for storing additional information.
    pub metadata: Option<Metadata>,
}

impl UpdateCardParams {
    /// Create new update card parameters.
    pub fn new() -> (r: Self)
        ensures
            r.exp_month is None,
            r.exp_year is None,
            r.name is None,
            r.address_line1 is None,
            r.address_line2 is None,
            r.address_city is None,
            r.address_state is None,
            r.address_zip is None,
            r.country is None,
            r.email is None,
            r.phone is None,
            r.metadata is None,
    {
        UpdateCardParams {
            exp_month: None,
            exp_year: None,
            name: None,
            address_line1: None,
            address_line2: None,
            address_city: None,
            address_state: None,
            address_zip: None,
            country: None,
            email: None,
            phone: None,
            metadata: None,
        }
    }

    /// Set the expiration date.
    pub fn expiration(self, month: i32, year: i32) -> (r: Self)
        ensures
            r == (UpdateCardParams { exp_month: Some(month), exp_year: Some(year), ..self }),
    {
        UpdateCardParams { exp_month: Some(month), exp_year: Some(year), ..self }
    }

    /// Set the cardholder name.
    pub fn name(self, name: &str) -> (r: Self)
        ensures
            r.name matches Some(v) && v@ == name@,
            r == (UpdateCardParams { name: r.name, ..self }),
    {
        UpdateCardParams { name: Some(String::from_str(name)), ..self }
    }

    /// Add metadata to the card.
    pub fn metadata(self, key: &str, value: &str) -> (r: Self)
        ensures
            r.metadata matches Some(m) && m@ == with_entry(entries_of(self.metadata), key@, value@),
            keys_unique(entries_of(self.metadata)) ==> keys_unique(entries_of(r.metadata)),
            r == (UpdateCardParams { metadata: r.metadata, ..self }),
    {
        let mut r = self;
        set_metadata(&mut r.metadata, key, value);
        r
    }

    /// The form pairs of the set fields, in declaration order.
    pub open spec fn form_view(&self) -> EntriesView {
        Seq::empty()
            + int_field("exp_month"@, widen(self.exp_month))
            + int_field("exp_year"@, widen(self.exp_year))
            + text_field("name"@, self.name)
            + text_field("address_line1"@, self.address_line1)
            + text_field("address_line2"@, self.address_line2)
            + text_field("address_city"@, self.address_city)
            + text_field("address_state"@, self.address_state)
            + text_field("address_zip"@, self.address_zip)
            + text_field("country"@, self.country)
            + text_field("email"@, self.email)
            + text_field("phone"@, self.phone)
            + metadata_form(self.metadata)
    }

    /// The form pairs of the set fields, in declaration order.
    pub fn form_pairs(&self) -> (r: Vec<FormPair>)
        ensures
            pairs_view(r@) == self.form_view(),
    {
        let mut pairs: Vec<FormPair> = Vec::new();
        assert(pairs_view(pairs@) =~= Seq::empty());
        push_int(&mut pairs, "exp_month", widen_i32(self.exp_month));
        push_int(&mut pairs, "exp_year", widen_i32(self.exp_year));
        push_text(&mut pairs, "name", &self.name);
        push_text(&mut pairs, "address_line1", &self.address_line1);
        push_text(&mut pairs, "address_line2", &self.address_line2);
        push_text(&mut pairs, "address_city", &self.address_city);
        push_text(&mut pairs, "address_state", &self.address_state);
        push_text(&mut pairs, "address_zip", &self.address_zip);
        push_text(&mut pairs, "country", &self.country);
        push_text(&mut pairs, "email", &self.email);
        push_text(&mut pairs, "phone", &self.phone);
        push_metadata(&mut pairs, &self.metadata);
        pairs
    }
}

/// Response from deleting a card.
#[derive(Debug, Clone)]
pub struct DeletedCard {
    /// Unique identifier for the card.
    pub id: String,
    /// Whether the deletion was successful.
    pub deleted: bool,
    /// Whether this card was in live mode.
    pub livemode: bool,
}

} // verus!
