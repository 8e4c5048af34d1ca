//! Tenants of a platform and their parameters.

use crate::form::{
    bracket_key, int_field, nested_key, pairs_view, push_int, push_pair, push_text, text_field,
    FormPair,
};
use crate::params::{
    entries_of, keys_unique, metadata_form, push_metadata, set_metadata, with_entry, EntriesView,
    Metadata,
};
use vstd::prelude::*;

verus! {

/// A tenant represents a sub-merchant in the platform.
#[derive(Debug, Clone)]
pub struct Tenant {
    /// Unique identifier for the tenant (prefixed with `ten_`).
    pub id: String,
    /// Object type (always "tenant").
    pub object: String,
    /// Whether this tenant was created in live mode.
    pub livemode: bool,
    /// Tenant creation timestamp (Unix timestamp).
    pub created: i64,
    /// Tenant name (optional).
    pub name: Option<String>,
    /// Platform fee rate for this tenant (optional).
    pub platform_fee_rate: Option<String>,
    /// Minimum transfer amount (optional).
    pub minimum_transfer_amount: Option<i64>,
    /// Bank information (optional).
    pub bank_account: Option<BankAccount>,
    /// Currencies enabled for this tenant (optional).
    pub currencies_supported: Option<Vec<String>>,
    /// Default currency for this tenant (optional).
    pub default_currency: Option<String>,
    /// Set of key-value pairs for storing additional information (optional).
    pub metadata: Option<Metadata>,
}

/// Bank account information for a tenant.
#[derive(Debug, Clone)]
pub struct BankAccount {
    /// Bank code.
    pub bank_code: String,
    /// Branch code.
    pub branch_code: String,
    /// Account type ("普通" or "当座").
    pub account_type: String,
    /// Account number.
    pub account_number: String,
    /// Account holder name.
    pub account_holder_name: String,
}

/// Parameters for creating a tenant.
#[derive(Debug, Clone)]
pub struct CreateTenantParams {
    /// Tenant name.
    pub name: Option<String>,
    /// Platform fee rate (as a decimal string, e.g., "0.10" for 10%).
    pub platform_fee_rate: Option<String>,
    /// Minimum transfer amount.
    pub minimum_transfer_amount: Option<i64>,
    /// Bank account information.
    pub bank_account: Option<BankAccount>,
    /// Set of key-value pairs for storing additional information.
    pub metadata: Option<Metadata>,
}

impl CreateTenantParams {
    /// Create new tenant parameters.
    pub fn new() -> (r: Self)
        ensures
            r.name is None,
            r.platform_fee_rate is None,
            r.minimum_transfer_amount is None,
            r.bank_account is None,
            r.metadata is None,
    {
        CreateTenantParams {
            name: None,
            platform_fee_rate: None,
            minimum_transfer_amount: None,
            bank_account: None,
            metadata: None,
        }
    }

    /// Set the tenant name.
    pub fn name(self, name: &str) -> (r: Self)
        ensures
            r.name matches Some(v) && v@ == name@,
            r == (CreateTenantParams { name: r.name, ..self }),
    {
        CreateTenantParams { name: Some(String::from_str(name)), ..self }
    }

    /// Set the platform fee rate.
    pub fn platform_fee_rate(self, rate: &str) -> (r: Self)
        ensures
            r.platform_fee_rate matches Some(v) && v@ == rate@,
            r == (CreateTenantParams { platform_fee_rate: r.platform_fee_rate, ..self }),
    {
        CreateTenantParams { platform_fee_rate: Some(String::from_str(rate)), ..self }
    }

    /// Set the minimum transfer amount.
    pub fn minimum_transfer_amount(self, amount: i64) -> (r: Self)
        ensures
            r == (CreateTenantParams { minimum_transfer_amount: Some(amount), ..self }),
    {
        CreateTenantParams { minimum_transfer_amount: Some(amount), ..self }
    }

    /// Set the bank account.
    pub fn bank_account(self, account: BankAccount) -> (r: Self)
        ensures
            r == (CreateTenantParams { bank_account: Some(account), ..self }),
    {
        CreateTenantParams { bank_account: Some(account), ..self }
    }

    /// Add metadata to the tenant.
    pub fn metadata(self, key: &str, value: &str) -> (r: Self)
        ensures
            r.metadata matches Some(m) && m@ == with_entry(entries_of(self.metadata), key@, value@),
            keys_unique(entries_of(self.metadata)) ==> keys_unique(entries_of(r.metadata)),
            r == (CreateTenantParams { metadata: r.metadata, ..self }),
    {
        let mut r = self;
        set_metadata(&mut r.metadata, key, value);
        r
    }

    /// The form pairs of the set fields, in declaration order.
    pub open spec fn form_view(&self) -> EntriesView {
        Seq::empty()
            + text_field("name"@, self.name)
            + text_field("platform_fee_rate"@, self.platform_fee_rate)
            + int_field("minimum_transfer_amount"@, self.minimum_transfer_amount)
            + bank_account_form(self.bank_account)
            + metadata_form(self.metadata)
    }

    /// The form pairs of the set fields, in declaration order.
    pub fn form_pairs(&self) -> (r: Vec<FormPair>)
        ensures
            pairs_view(r@) == self.form_view(),
    {
        let mut pairs: Vec<FormPair> = Vec::new();
        assert(pairs_view(pairs@) =~= Seq::empty());
        push_text(&mut pairs, "name", &self.name);
        push_text(&mut pairs, "platform_fee_rate", &self.platform_fee_rate);
        push_int(&mut pairs, "minimum_transfer_amount", self.minimum_transfer_amount);
        push_bank_account(&mut pairs, &self.bank_account);
        push_metadata(&mut pairs, &self.metadata);
        pairs
    }
}

/// Parameters for updating a tenant.
#[derive(Debug, Clone)]
pub struct UpdateTenantParams {
    /// Tenant name.
    pub name: Option<String>,
    /// Platform fee rate.
    pub platform_fee_rate: Option<String>,
    /// Minimum transfer amount.
    pub minimum_transfer_amount: Option<i64>,
    /// Bank account information.
    pub bank_account: Option<BankAccount>,
    /// Set of key-value pairs for storing additional information.
    pub metadata: Option<Metadata>,
}

impl UpdateTenantParams {
    /// Create new update tenant parameters.
    pub fn new() -> (r: Self)
        ensures
            r.name is None,
            r.platform_fee_rate is None,
            r.minimum_transfer_amount is None,
            r.bank_account is None,
            r.metadata is None,
    {
        UpdateTenantParams {
            name: None,
            platform_fee_rate: None,
            minimum_transfer_amount: None,
            bank_account: None,
            metadata: None,
        }
    }

    /// Set the tenant name.
    pub fn name(self, name: &str) -> (r: Self)
        ensures
            r.name matches Some(v) && v@ == name@,
            r == (UpdateTenantParams { name: r.name, ..self }),
    {
        UpdateTenantParams { name: Some(String::from_str(name)), ..self }
    }

    /// Set the platform fee rate.
    pub fn platform_fee_rate(self, rate: &str) -> (r: Self)
        ensures
            r.platform_fee_rate matches Some(v) && v@ == rate@,
            r == (UpdateTenantParams { platform_fee_rate: r.platform_fee_rate, ..self }),
    {
        UpdateTenantParams { platform_fee_rate: Some(String::from_str(rate)), ..self }
    }

    /// Add metadata to the tenant.
    pub fn metadata(self, key: &str, value: &str) -> (r: Self)
        ensures
            r.metadata matches Some(m) && m@ == with_entry(entries_of(self.metadata), key@, value@),
            keys_unique(entries_of(self.metadata)) ==> keys_unique(entries_of(r.metadata)),
            r == (UpdateTenantParams { metadata: r.metadata, ..self }),
    {
        let mut r = self;
        set_metadata(&mut r.metadata, key, value);
        r
    }

    /// The form pairs of the set fields, in declaration order.
    pub open spec fn form_view(&self) -> EntriesView {
        Seq::empty()
            + text_field("name"@, self.name)
            + text_field("platform_fee_rate"@, self.platform_fee_rate)
            + int_field("minimum_transfer_amount"@, self.minimum_transfer_amount)
            + bank_account_form(self.bank_account)
            + metadata_form(self.metadata)
    }

    /// The form pairs of the set fields, in declaration order.
    pub fn form_pairs(&self) -> (r: Vec<FormPair>)
        ensures
            pairs_view(r@) == self.form_view(),
    {
        let mut pairs: Vec<FormPair> = Vec::new();
        assert(pairs_view(pairs@) =~= Seq::empty());
        push_text(&mut pairs, "name", &self.name);
        push_text(&mut pairs, "platform_fee_rate", &self.platform_fee_rate);
        push_int(&mut pairs, "minimum_transfer_amount", self.minimum_transfer_amount);
        push_bank_account(&mut pairs, &self.bank_account);
        push_metadata(&mut pairs, &self.metadata);
        pairs
    }
}

/// Response from deleting a tenant.
#[derive(Debug, Clone)]
pub struct DeletedTenant {
    /// Tenant ID.
    pub id: String,
    /// Whether the deletion was successful.
    pub deleted: bool,
    /// Whether this tenant was in live mode.
    pub livemode: bool,
}

/// Application URLs for tenant onboarding.
#[derive(Debug, Clone)]
pub struct ApplicationUrls {
    /// URL for the application (optional).
    pub url: Option<String>,
    /// Expiration timestamp for the URL (Unix timestamp, optional).
    pub expires: Option<i64>,
}


/// The `bank_account[...]` pairs of optional bank account details.
pub open spec fn bank_account_form(account: Option<BankAccount>) -> EntriesView {
    match account {
        Some(a) => seq![
            (bracket_key("bank_account"@, "bank_code"@), a.bank_code@),
            (bracket_key("bank_account"@, "branch_code"@), a.branch_code@),
            (bracket_key("bank_account"@, "account_type"@), a.account_type@),
            (bracket_key("bank_account"@, "account_number"@), a.account_number@),
            (bracket_key("bank_account"@, "account_holder_name"@), a.account_holder_name@),
        ],
        None => Seq::empty(),
    }
}

/// Appends the pairs of optional bank account details.
pub fn push_bank_account(pairs: &mut Vec<FormPair>, account: &Option<BankAccount>)
    ensures
        pairs_view(final(pairs)@) == pairs_view(old(pairs)@) + bank_account_form(*account),
{
    match account {
        Some(a) => {
            push_pair(pairs, nested_key("bank_account", "bank_code"), a.bank_code.clone());
            push_pair(pairs, nested_key("bank_account", "branch_code"), a.branch_code.clone());
            push_pair(pairs, nested_key("bank_account", "account_type"), a.account_type.clone());
            push_pair(pairs, nested_key("bank_account", "account_number"), a.account_number.clone());
            push_pair(
                pairs,
                nested_key("bank_account", "account_holder_name"),
                a.account_holder_name.clone(),
            );
            assert(pairs_view(final(pairs)@) =~= pairs_view(old(pairs)@) + bank_account_form(*account));
        },
        None => {
            assert(pairs_view(old(pairs)@) + bank_account_form(*account) =~= pairs_view(old(pairs)@));
        },
    }
}

} // verus!
