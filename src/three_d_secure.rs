//! 3D Secure requests and their parameters.

use crate::form::{pairs_view, push_text, text_field, FormPair};
use crate::params::{EntriesView};
use vstd::prelude::*;

verus! {

/// A 3D Secure request for card authentication.
#[derive(Debug, Clone)]
pub struct ThreeDSecureRequest {
    /// Unique identifier for the 3DS request (prefixed with `tdsr_`).
    pub id: String,
    /// Object type (always "three_d_secure_request").
    pub object: String,
    /// Whether this request was created in live mode.
    pub livemode: bool,
    /// Request creation timestamp (Unix timestamp).
    pub created: i64,
    /// Resource type being authenticated ("card" or "charge", optional).
    /// Note: The PAY.JP API may not always return this field.
    pub resource_type: Option<String>,
    /// Resource ID (card or charge ID, optional).
    /// This field contains the card ID when the request is created.
    pub resource_id: Option<String>,
    /// 3DS authentication status (optional).
    /// Note: The PAY.JP API may not return this field immediately after creation.
    pub status: Option<ThreeDSecureStatus>,
    /// URL for 3DS authentication (optional).
    pub authentication_url: Option<String>,
    /// Tenant ID (Platform API, optional).
    pub tenant: Option<String>,
    /// State parameter for callback (optional).
    pub state: Option<String>,
    /// Result information (optional).
    pub result: Option<ThreeDSecureResult>,
}

/// Status of a 3D Secure request.
#[derive(Debug, Clone, Copy, PartialEq, Eq, Structural)]
pub enum ThreeDSecureStatus {
    /// Verification in progress.
    InProgress,
    /// Verification succeeded.
    Verified,
    /// Verification attempted but not completed.
    Attempted,
    /// Verification failed.
    Failed,
    /// Verification error occurred.
    Error,
    /// Verification was aborted.
    Aborted,
    /// Unknown status (for debugging).
    Unknown,
}

/// Result of a 3D Secure authentication.
#[derive(Debug, Clone)]
pub struct ThreeDSecureResult {
    /// Result code (optional).
    pub code: Option<String>,
    /// Result message (optional).
    pub message: Option<String>,
    /// ECI (Electronic Commerce Indicator) value (optional).
    pub eci: Option<String>,
}

/// Parameters for creating a 3D Secure request.
#[derive(Debug, Clone)]
pub struct CreateThreeDSecureRequestParams {
    /// Resource ID (card ID like `car_xxxxx` or charge ID like `ch_xxxxx`).
    pub resource_id: String,
    /// Tenant ID (Platform API, optional).
    pub tenant: Option<String>,
}

impl CreateThreeDSecureRequestParams {
    /// Create new 3DS request parameters.
    pub fn new(resource_id: &str) -> (r: Self)
        ensures
            r.resource_id@ == resource_id@,
            r.tenant is None,
    {
        CreateThreeDSecureRequestParams { resource_id: String::from_str(resource_id), tenant: None }
    }

    /// Set the tenant ID (Platform API).
    pub fn tenant(self, tenant: &str) -> (r: Self)
        ensures
            r.tenant matches Some(v) && v@ == tenant@,
            r == (CreateThreeDSecureRequestParams { tenant: r.tenant, ..self }),
    {
        CreateThreeDSecureRequestParams { tenant: Some(String::from_str(tenant)), ..self }
    }

    /// The form pairs of the set fields, in declaration order.
    pub open spec fn form_view(&self) -> EntriesView {
        Seq::empty()
            + text_field("resource_id"@, Some(self.resource_id))
            + text_field("tenant"@, self.tenant)
    }

    /// The form pairs of the set fields, in declaration order.
    pub fn form_pairs(&self) -> (r: Vec<FormPair>)
        ensures
            pairs_view(r@) == self.form_view(),
    {
        let mut pairs: Vec<FormPair> = Vec::new();
        assert(pairs_view(pairs@) =~= Seq::empty());
        push_text(&mut pairs, "resource_id", &Some(self.resource_id.clone()));
        push_text(&mut pairs, "tenant", &self.tenant);
        pairs
    }
}

} // verus!
