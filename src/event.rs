//! Kinds of events.

use crate::card::Card;
use crate::plan::Plan;
use crate::subscription::Subscription;
use vstd::prelude::*;

verus! {

/// Type of event that occurred.
#[derive(Debug, Clone, Copy, PartialEq, Eq, Structural)]
pub enum EventType {
    /// Charge was created.
    ChargeCreated,
    /// Charge was updated.
    ChargeUpdated,
    /// Charge succeeded.
    ChargeSucceeded,
    /// Charge failed.
    ChargeFailed,
    /// Charge was captured.
    ChargeCaptured,
    /// Charge was refunded.
    ChargeRefunded,
    /// Customer was created.
    CustomerCreated,
    /// Customer was updated.
    CustomerUpdated,
    /// Customer was deleted.
    CustomerDeleted,
    /// Card was created.
    CustomerCardCreated,
    /// Card was updated.
    CustomerCardUpdated,
    /// Card was deleted.
    CustomerCardDeleted,
    /// Plan was created.
    PlanCreated,
    /// Plan was updated.
    PlanUpdated,
    /// Plan was deleted.
    PlanDeleted,
    /// Subscription was created.
    SubscriptionCreated,
    /// Subscription was updated.
    SubscriptionUpdated,
    /// Subscription was deleted.
    SubscriptionDeleted,
    /// Subscription was paused.
    SubscriptionPaused,
    /// Subscription was resumed.
    SubscriptionResumed,
    /// Subscription was canceled.
    SubscriptionCanceled,
    /// Subscription renewal succeeded.
    SubscriptionRenewed,
    /// Transfer was created.
    TransferCreated,
    /// Other event types not explicitly handled.
    Other,
}

} // verus!
