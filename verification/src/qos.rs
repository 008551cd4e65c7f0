//! Quality-of-service profiles.
//!
//! A profile configures the delivery guarantees of a topic endpoint. The
//! subscription layer only transports a profile to the middleware
//! registration call; it never interprets the fields itself, so their
//! meaning is stated here only as far as a reader needs to pick one.

use vstd::prelude::*;

verus! {

/// How many delivered messages the endpoint keeps around.
#[derive(Clone, Copy, PartialEq, Eq, Structural, Debug)]
pub enum HistoryPolicy {
    /// Keep at most `depth` messages.
    KeepLast,
    /// Keep every message.
    KeepAll,
}

/// Whether delivery is retried until acknowledged.
#[derive(Clone, Copy, PartialEq, Eq, Structural, Debug)]
pub enum ReliabilityPolicy {
    Reliable,
    BestEffort,
}

/// Whether messages are kept for subscribers that join late.
#[derive(Clone, Copy, PartialEq, Eq, Structural, Debug)]
pub enum DurabilityPolicy {
    TransientLocal,
    Volatile,
}

/// A quality-of-service profile, consumed verbatim by the middleware.
#[derive(Clone, Copy, PartialEq, Eq, Structural, Debug)]
pub struct QoSProfile {
    pub history: HistoryPolicy,
    pub depth: usize,
    pub reliability: ReliabilityPolicy,
    pub durability: DurabilityPolicy,
}

impl QoSProfile {
    /// The profile used when a caller has no special delivery needs.
    pub open spec fn default_profile() -> QoSProfile {
        QoSProfile {
            history: HistoryPolicy::KeepLast,
            depth: 10,
            reliability: ReliabilityPolicy::Reliable,
            durability: DurabilityPolicy::Volatile,
        }
    }
}

impl Default for QoSProfile {
    /// The profile used when a caller has no special delivery needs.
    fn default() -> (profile: Self)
        ensures
            profile == QoSProfile::default_profile(),
    {
        QoSProfile {
            history: HistoryPolicy::KeepLast,
            depth: 10,
            reliability: ReliabilityPolicy::Reliable,
            durability: DurabilityPolicy::Volatile,
        }
    }
}

} // verus!
