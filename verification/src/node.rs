//! The node that owns the communication-domain participant.
//!
//! Subscriptions register against a node and co-own its participant
//! resource, so construction and finalization of a subscription serialize on
//! the node's lock while everything else runs independently. Only the parts
//! of the node that the subscription layer needs are here: a shared,
//! mutually exclusive handle to the participant resource.

use vstd::prelude::*;
use vstd::rwlock::{RwLock, RwLockPredicate};

use std::sync::Arc;

use crate::middleware::NodeResource;

verus! {

/// The lock invariant of a node's participant resource. Any resource state
/// may rest in the lock: liveness and the registration count change over
/// the node's life.
pub struct NodePred {}

impl RwLockPredicate<NodeResource> for NodePred {
    open spec fn inv(self, resource: NodeResource) -> bool {
        true
    }
}

/// A node: the owner of one participant resource, shared with every
/// subscription constructed against it.
pub struct Node {
    /// The participant resource. Reference-counted so each subscription can
    /// retain a share and keep the resource alive at least as long as
    /// itself; locked so construction and finalization of subscriptions
    /// never touch it concurrently.
    pub(crate) handle: Arc<RwLock<NodeResource, NodePred>>,
}

impl Node {
    /// A live node with no subscriptions registered yet.
    pub fn new() -> Node {
        Node {
            handle: Arc::new(
                RwLock::new(
                    NodeResource { live: true, subscription_count: 0 },
                    Ghost(NodePred {}),
                ),
            ),
        }
    }

    /// Tears the participant down, as the node's owner does at the end of
    /// its life. Subscriptions constructed against the node afterwards are
    /// rejected with a registration failure.
    pub fn shutdown(&self) {
        let (mut resource, write_handle) = self.handle.acquire_write();
        resource.live = false;
        write_handle.release_write(resource);
    }

    /// How many subscriptions are currently registered against this node
    /// and not yet finalized. The answer is a snapshot: other owners of the
    /// node may change it at any time.
    pub fn subscription_count(&self) -> usize {
        let read_handle = self.handle.acquire_read();
        let count: usize = read_handle.borrow().subscription_count;
        read_handle.release_read();
        count
    }

    /// Whether the participant is live. A snapshot, as with
    /// [`Node::subscription_count`].
    pub fn is_live(&self) -> bool {
        let read_handle = self.handle.acquire_read();
        let live: bool = read_handle.borrow().live;
        read_handle.release_read();
        live
    }
}

} // verus!
