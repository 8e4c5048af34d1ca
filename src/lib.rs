//! Typed client core for the PAY.JP payment API: configuration, request
//! encoding, status interpretation and rate-limit retry with backoff.

pub mod backoff;
pub mod text;
pub mod error;
pub mod form;
pub mod params;
pub mod client;
pub mod status;
pub mod retry;
pub mod account;
pub mod balance;
pub mod card;
pub mod charge;
pub mod customer;
pub mod event;
pub mod plan;
pub mod tenant;
pub mod tenant_transfer;
pub mod statement;
pub mod subscription;
pub mod term;
pub mod three_d_secure;
pub mod token;
pub mod transfer;
pub mod list;

pub use account::Account;
pub use balance::Balance;
pub use card::{Card, CardThreeDSecureStatus, CreateCardParams, DeletedCard, UpdateCardParams};
pub use charge::{
    CaptureParams, Charge, CreateChargeParams, ListChargeParams, ReauthParams, RefundParams,
    UpdateChargeParams,
};
pub use client::{ClientOptions, Method, PayjpClient, PreparedRequest, DEFAULT_BASE_URL};
pub use customer::{CardOrId, CreateCustomerParams, Customer, DeletedCustomer, UpdateCustomerParams};
pub use error::{ApiError, CardError, PayjpError, PayjpResult};
pub use event::EventType;
pub use list::ListResponse;
pub use params::{ListParams, Metadata};
pub use plan::{CreatePlanParams, DeletedPlan, Plan, PlanInterval, UpdatePlanParams};
pub use retry::{run_attempts, RetryRun, RetryState, RetryStep};
pub use statement::{Statement, StatementUrls};
pub use status::ResponseClass;
pub use subscription::{
    CancelSubscriptionParams, CreateSubscriptionParams, DeletedSubscription,
    PauseSubscriptionParams, ResumeSubscriptionParams, Subscription, SubscriptionStatus,
    UpdateSubscriptionParams,
};
pub use tenant::{
    ApplicationUrls, BankAccount, CreateTenantParams, DeletedTenant, Tenant, UpdateTenantParams,
};
pub use tenant_transfer::{TenantTransfer, TenantTransferSummary};
pub use term::Term;
pub use three_d_secure::{
    CreateThreeDSecureRequestParams, ThreeDSecureRequest, ThreeDSecureResult, ThreeDSecureStatus,
};
pub use token::{CardDetails, CreateTokenParams, Token};
pub use transfer::{Transfer, TransferSummary};
