//! Lifecycle and data-delivery path of a single subscription endpoint in a
//! publish/subscribe middleware binding.
//!
//! A subscription registers interest in a named topic; a host execution loop
//! later signals "data may be ready", and this crate then fetches the pending
//! wire message, decodes it into the application type, and hands it to the
//! user-supplied callback. The crate proves the correctness of its own
//! resource discipline: the middleware resource moves `Uninitialized` to
//! `Live` to `Finalized` and is finalized exactly once, construction either
//! yields a live subscription or a classified error and never a partial
//! object, and an execution on an empty subscription is a successful no-op
//! rather than a failure.
//!
//! The middleware itself is an external collaborator. Its resources are
//! modeled by [`SubscriptionResource`] and
//! [`NodeResource`], whose operations carry the contracts the
//! real primitives document: registration against a live node, a
//! non-blocking fetch of at most one message, and a finalization that only
//! acts on a live resource.

mod error;
mod message;
mod messages;
mod middleware;
mod node;
mod qos;
mod subscription;
mod topic;

pub use error::{RclReturnCode, SubscriberErrorCode};
pub use message::{Message, MessageTypeSupport};
pub use messages::{RecordingCallback, UInt64Message};
pub use middleware::{
    NodeResource, ResourceState, SubscriptionOptions, SubscriptionResource, finalize_transition,
    lemma_finalize_idempotent, lemma_finalize_preserves_node_liveness,
};
pub use node::{Node, NodePred};
pub use qos::{DurabilityPolicy, HistoryPolicy, QoSProfile, ReliabilityPolicy};
pub use subscription::{Subscription, SubscriptionBase, SubscriptionCallback, SubscriptionHandle};
pub use topic::valid_topic_name;
