//! Classified error values returned by the subscription layer.
//!
//! The middleware reports failure through return codes; this module gives
//! each condition the subscription layer can surface its own variant, so
//! that callers can tell an expected condition (nothing pending) from a
//! real malfunction.

use vstd::prelude::*;

verus! {

/// Conditions specific to a subscription endpoint.
#[derive(Clone, Copy, PartialEq, Eq, Structural, Debug)]
pub enum SubscriberErrorCode {
    /// The operation was attempted on a subscription whose resource is not
    /// live (it was never initialized, or it has been finalized).
    SubscriptionInvalid,
    /// The fetch found nothing pending. This is a normal, expected outcome
    /// of polling, not a malfunction.
    SubscriptionTakeFailed,
}

/// Classified outcome of a middleware call.
#[derive(Clone, Copy, PartialEq, Eq, Structural, Debug)]
pub enum RclReturnCode {
    /// A configuration input was unusable, such as a topic name with an
    /// embedded null byte.
    InvalidArgument,
    /// The middleware could not allocate the resources that registration
    /// needs.
    BadAlloc,
    /// The node the operation was directed at is not live.
    NodeInvalid,
    /// A condition specific to a subscription endpoint.
    SubscriberError(SubscriberErrorCode),
}

} // verus!
