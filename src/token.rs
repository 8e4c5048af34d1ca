//! Card tokens and their parameters.

use crate::card::Card;
use crate::form::{
    ascii_pairs, bracket_key, form_of_ascii, form_pair_text, form_text, form_unreserved, int_field,
    lemma_form_of_ascii_first, lemma_form_text_concat, lemma_form_text_unreserved, nested_key,
    pairs_view, push_int, push_text, text_field, FormPair,
};
use crate::params::{EntriesView};
use crate::text::decimal_of;
use vstd::prelude::*;

verus! {

/// A token represents a card that can be used to create a charge or customer.
/// Tokens are one-time use and expire after a short period.
#[derive(Debug, Clone)]
pub struct Token {
    /// Unique identifier for the token (prefixed with `tok_`).
    pub id: String,
    /// Object type (always "token").
    pub object: String,
    /// Whether this token was created in live mode.
    pub livemode: bool,
    /// Token creation timestamp (Unix timestamp).
    pub created: i64,
    /// Whether this token has been used.
    pub used: bool,
    /// Card information associated with this token.
    pub card: Card,
}

/// Raw card details for creating a token (server-side only for testing).
/// In production, tokens should be created client-side using PAY.JP.js.
#[derive(Debug, Clone)]
pub struct CardDetails {
    /// Card number (without spaces or hyphens).
    pub number: String,
    /// Card expiration month (1-12).
    pub exp_month: i32,
    /// Card expiration year (4 digits).
    pub exp_year: i32,
    /// Card CVC/CVV code.
    pub cvc: String,
    /// Cardholder name (optional).
    pub name: Option<String>,
    /// Address line 1 (optional).
    pub address_line1: Option<String>,
    /// Address line 2 (optional).
    pub address_line2: Option<String>,
    /// Address city (optional).
    pub address_city: Option<String>,
    /// Address state/prefecture (optional).
    pub address_state: Option<String>,
    /// Address ZIP/postal code (optional).
    pub address_zip: Option<String>,
    /// Address country (optional).
    pub country: Option<String>,
    /// Email address (optional).
    pub email: Option<String>,
    /// Phone number (optional).
    pub phone: Option<String>,
}

impl CardDetails {
    /// Create new card details for tokenization.
    pub fn new(number: &str, exp_month: i32, exp_year: i32, cvc: &str) -> (r: Self)
        ensures
            r.number@ == number@,
            r.exp_month == exp_month,
            r.exp_year == exp_year,
            r.cvc@ == cvc@,
            r.name is None,
            r.address_line1 is None,
            r.address_line2 is None,
            r.address_city is None,
            r.address_state is None,
            r.address_zip is None,
            r.country is None,
            r.email is None,
            r.phone is None,
    {
        CardDetails {
            number: String::from_str(number),
            exp_month,
            exp_year,
            cvc: String::from_str(cvc),
            name: None,
            address_line1: None,
            address_line2: None,
            address_city: None,
            address_state: None,
            address_zip: None,
            country: None,
            email: None,
            phone: None,
        }
    }

    /// Set the cardholder name.
    pub fn name(self, name: &str) -> (r: Self)
        ensures
            r.name matches Some(v) && v@ == name@,
            r == (CardDetails { name: r.name, ..self }),
    {
        CardDetails { name: Some(String::from_str(name)), ..self }
    }

    /// Set the email address.
    pub fn email(self, email: &str) -> (r: Self)
        ensures
            r.email matches Some(v) && v@ == email@,
            r == (CardDetails { email: r.email, ..self }),
    {
        CardDetails { email: Some(String::from_str(email)), ..self }
    }

    /// The form pairs of the set fields, in declaration order.
    pub open spec fn form_view(&self) -> EntriesView {
        Seq::empty()
            + text_field(bracket_key("card"@, "number"@), Some(self.number))
            + int_field(bracket_key("card"@, "exp_month"@), Some(self.exp_month as i64))
            + int_field(bracket_key("card"@, "exp_year"@), Some(self.exp_year as i64))
            + text_field(bracket_key("card"@, "cvc"@), Some(self.cvc))
            + text_field(bracket_key("card"@, "name"@), self.name)
            + text_field(bracket_key("card"@, "address_line1"@), self.address_line1)
            + text_field(bracket_key("card"@, "address_line2"@), self.address_line2)
            + text_field(bracket_key("card"@, "address_city"@), self.address_city)
            + text_field(bracket_key("card"@, "address_state"@), self.address_state)
            + text_field(bracket_key("card"@, "address_zip"@), self.address_zip)
            + text_field(bracket_key("card"@, "country"@), self.country)
            + text_field(bracket_key("card"@, "email"@), self.email)
            + text_field(bracket_key("card"@, "phone"@), self.phone)
    }

    /// The form pairs of the set fields, in declaration order.
    pub fn form_pairs(&self) -> (r: Vec<FormPair>)
        ensures
            pairs_view(r@) == self.form_view(),
    {
        let mut pairs: Vec<FormPair> = Vec::new();
        assert(pairs_view(pairs@) =~= Seq::empty());
        push_text(&mut pairs, nested_key("card", "number").as_str(), &Some(self.number.clone()));
        push_int(&mut pairs, nested_key("card", "exp_month").as_str(), Some(self.exp_month as i64));
        push_int(&mut pairs, nested_key("card", "exp_year").as_str(), Some(self.exp_year as i64));
        push_text(&mut pairs, nested_key("card", "cvc").as_str(), &Some(self.cvc.clone()));
        push_text(&mut pairs, nested_key("card", "name").as_str(), &self.name);
        push_text(&mut pairs, nested_key("card", "address_line1").as_str(), &self.address_line1);
        push_text(&mut pairs, nested_key("card", "address_line2").as_str(), &self.address_line2);
        push_text(&mut pairs, nested_key("card", "address_city").as_str(), &self.address_city);
        push_text(&mut pairs, nested_key("card", "address_state").as_str(), &self.address_state);
        push_text(&mut pairs, nested_key("card", "address_zip").as_str(), &self.address_zip);
        push_text(&mut pairs, nested_key("card", "country").as_str(), &self.country);
        push_text(&mut pairs, nested_key("card", "email").as_str(), &self.email);
        push_text(&mut pairs, nested_key("card", "phone").as_str(), &self.phone);
        pairs
    }
}

/// Parameters for creating a token.
#[derive(Debug, Clone)]
pub struct CreateTokenParams {
    /// Raw card details (server-side only for testing).
    pub card: Option<CardDetails>,
}

impl CreateTokenParams {
    /// Create token parameters with card details.
    pub fn from_card(card: CardDetails) -> (r: Self)
        ensures
            r.card == Some(card),
    {
        CreateTokenParams { card: Some(card) }
    }

}


/// The `card[...]` pairs of optional card details.
pub open spec fn card_details_form(card: Option<CardDetails>) -> EntriesView {
    match card {
        Some(c) => c.form_view(),
        None => Seq::empty(),
    }
}

impl CreateTokenParams {
    /// The form pairs of the parameters: those of the card details, if set.
    pub open spec fn form_view(&self) -> EntriesView {
        card_details_form(self.card)
    }

    /// The form pairs of the parameters: those of the card details, if set.
    pub fn form_pairs(&self) -> (r: Vec<FormPair>)
        ensures
            pairs_view(r@) == self.form_view(),
    {
        match &self.card {
            Some(c) => c.form_pairs(),
            None => {
                let pairs: Vec<FormPair> = Vec::new();
                assert(pairs_view(pairs@) =~= Seq::empty());
                pairs
            },
        }
    }
}

/// The card number of token parameters goes into the form under the key
/// `card[number]`, first, and the expiry and security code follow under
/// bracketed keys of the same `card` object.
pub proof fn lemma_card_fields_use_bracket_keys(p: CreateTokenParams)
    requires
        p.card is Some,
    ensures
        p.form_view().len() >= 4,
        p.form_view()[0] == ("card[number]"@, p.card.unwrap().number@),
        p.form_view()[1] == (bracket_key("card"@, "exp_month"@), decimal_of(
            p.card.unwrap().exp_month as int,
        )),
        p.form_view()[2] == (bracket_key("card"@, "exp_year"@), decimal_of(
            p.card.unwrap().exp_year as int,
        )),
        p.form_view()[3] == (bracket_key("card"@, "cvc"@), p.card.unwrap().cvc@),
{
    let c = p.card.unwrap();
    reveal_strlit("card[number]");
    reveal_strlit("card");
    reveal_strlit("number");
    reveal_strlit("[");
    reveal_strlit("]");
    assert(bracket_key("card"@, "number"@) =~= "card[number]"@);
}

/// A form-encoded POST of token parameters whose text is ASCII and whose
/// card number is all digits starts with `card%5Bnumber%5D=` followed by the
/// number: the key `card[number]` in bracket notation, percent-encoded.
pub proof fn lemma_token_body_starts_with_card_number(p: CreateTokenParams)
    requires
        p.card is Some,
        ascii_pairs(p.form_view()),
        forall|j: int|
            0 <= j < p.card.unwrap().number@.len() ==> '0' <= #[trigger] p.card.unwrap().number@[j]
                <= '9',
    ensures
        form_of_ascii(p.form_view()).len() >= 17 + p.card.unwrap().number@.len(),
        form_of_ascii(p.form_view()).subrange(0, 17 + p.card.unwrap().number@.len() as int)
            == "card%5Bnumber%5D="@ + p.card.unwrap().number@,
{
    let c = p.card.unwrap();
    let v = p.form_view();
    lemma_card_fields_use_bracket_keys(p);
    lemma_form_of_ascii_first(v);
    reveal_strlit("card");
    reveal_strlit("number");
    reveal_strlit("[");
    reveal_strlit("]");
    reveal_strlit("=");
    reveal_strlit("card%5Bnumber%5D=");
    assert forall|j: int| 0 <= j < c.number@.len() implies form_unreserved(#[trigger] c.number@[j]) by {
        assert('0' <= c.number@[j] <= '9');
    }
    lemma_form_text_unreserved(c.number@);
    lemma_form_text_unreserved("card"@);
    lemma_form_text_unreserved("number"@);
    reveal_with_fuel(form_text, 2);
    assert(form_text("["@) == seq!['%', '5', 'B']);
    assert(form_text("]"@) == seq!['%', '5', 'D']);
    lemma_form_text_concat("card"@, "["@);
    lemma_form_text_concat("card"@ + "["@, "number"@);
    lemma_form_text_concat("card"@ + "["@ + "number"@, "]"@);
    assert(form_text(bracket_key("card"@, "number"@)) =~= "card"@ + seq!['%', '5', 'B'] + "number"@
        + seq!['%', '5', 'D']);
    assert(form_pair_text(v[0]) =~= "card%5Bnumber%5D="@ + c.number@);
}
} // verus!
