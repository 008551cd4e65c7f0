//! Model of the middleware resources a subscription touches.
//!
//! The real middleware lives behind a C interface and owns the transport;
//! this module states its observable behavior so the subscription layer can
//! be proved against it. A [`SubscriptionResource`] moves through the states
//! `Uninitialized`, `Live` and `Finalized`: registration (`init`) turns a
//! zeroed resource live against a live node, `take` fetches at most one
//! pending wire message without blocking, `deliver` is the transport handing
//! a message in, and `fini` releases the resource exactly once. A
//! [`NodeResource`] is the communication-domain participant that a node
//! owns; it counts the live subscriptions registered against it.

use vstd::prelude::*;

use crate::error::{RclReturnCode, SubscriberErrorCode};
use crate::message::MessageTypeSupport;
use crate::qos::QoSProfile;

verus! {

/// Lifecycle state of a middleware resource.
#[derive(Clone, Copy, PartialEq, Eq, Structural, Debug)]
pub enum ResourceState {
    /// Zero-initialized; not yet registered. The only state in which
    /// registration may be attempted.
    Uninitialized,
    /// Registered and usable. The only state in which a fetch can succeed.
    Live,
    /// Released. Terminal: no operation is valid afterwards.
    Finalized,
}

/// The participant resource owned by a node. Subscriptions register against
/// it and share it, so it must outlive every one of them.
#[derive(Clone, Copy, PartialEq, Eq, Structural, Debug)]
pub struct NodeResource {
    /// Whether the participant is usable. Registration against a node that
    /// is not live is rejected.
    pub live: bool,
    /// How many subscriptions are currently registered and not yet
    /// finalized.
    pub subscription_count: usize,
}

/// Options handed to registration; they embed the quality-of-service
/// profile and nothing this layer interprets beyond it.
#[derive(Clone, Copy, PartialEq, Eq, Structural, Debug)]
pub struct SubscriptionOptions {
    pub qos: QoSProfile,
}

impl SubscriptionOptions {
    /// The options registration starts from before the caller overlays its
    /// own profile.
    pub fn default_options() -> (options: Self)
        ensures
            options.qos == QoSProfile::default_profile(),
    {
        SubscriptionOptions { qos: QoSProfile::default() }
    }
}

/// The middleware subscription resource: what registration allocates, what
/// the transport fills, and what finalization releases.
pub struct SubscriptionResource {
    pub state: ResourceState,
    /// The topic name the resource was registered with. Registration copies
    /// the name, so the caller's wire representation can be dropped.
    pub topic: String,
    /// Descriptor of the message type the topic carries.
    pub type_support: MessageTypeSupport,
    /// The profile registration was given, transported verbatim.
    pub qos: QoSProfile,
    /// Wire messages delivered by the transport and not yet taken, oldest
    /// first.
    pub pending: Vec<Vec<u8>>,
}

/// The finalize step as a transition on the pair of resources it touches.
/// Only a live subscription resource is released: releasing it makes it
/// `Finalized` and gives its registration back to the node; in any other
/// state nothing changes, so the release of one resource happens at most
/// once.
pub open spec fn finalize_transition(s: SubscriptionResource, n: NodeResource) -> (
    SubscriptionResource,
    NodeResource,
) {
    if s.state == ResourceState::Live {
        (
            (SubscriptionResource { state: ResourceState::Finalized, ..s }),
            (NodeResource {
                subscription_count: if n.subscription_count > 0 {
                    (n.subscription_count - 1) as usize
                } else {
                    0
                },
                ..n
            }),
        )
    } else {
        (s, n)
    }
}

/// Finalization is exactly-once: once the finalize step has run, running it
/// again changes neither the subscription resource nor the node resource,
/// so a second release of the same resource cannot happen.
pub proof fn lemma_finalize_idempotent(s: SubscriptionResource, n: NodeResource)
    ensures
        finalize_transition(
            finalize_transition(s, n).0,
            finalize_transition(s, n).1,
        ) == finalize_transition(s, n),
{
}

/// Finalizing a subscription resource never changes whether the node is
/// live: tearing one subscription down cannot invalidate the participant
/// its siblings still use.
pub proof fn lemma_finalize_preserves_node_liveness(s: SubscriptionResource, n: NodeResource)
    ensures
        finalize_transition(s, n).1.live == n.live,
{
}

impl SubscriptionResource {
    /// A zeroed resource, as registration expects to receive it.
    pub fn zero_initialized() -> (resource: Self)
        ensures
            resource.state == ResourceState::Uninitialized,
            resource.pending@ == Seq::<Vec<u8>>::empty(),
    {
        SubscriptionResource {
            state: ResourceState::Uninitialized,
            topic: String::new(),
            type_support: MessageTypeSupport { name: String::new() },
            qos: QoSProfile::default(),
            pending: Vec::new(),
        }
    }

    /// Registration: binds a zeroed resource to a topic on a live node.
    ///
    /// Succeeds exactly when the node is live and can still count one more
    /// registration. On success the resource is live, carries the topic
    /// name, type descriptor and profile verbatim, and has nothing pending;
    /// the node counts one registration more. On failure both resources are
    /// exactly as they were: no partially registered resource exists.
    pub fn init(
        &mut self,
        node: &mut NodeResource,
        type_support: MessageTypeSupport,
        topic: &str,
        options: &SubscriptionOptions,
    ) -> (result: Result<(), RclReturnCode>)
        requires
            old(self).state == ResourceState::Uninitialized,
        ensures
            result matches Ok(()) <==> (old(node).live && old(node).subscription_count
                < usize::MAX),
            result matches Ok(()) ==> final(self).state == ResourceState::Live
                && final(self).topic@ == topic@ && final(self).type_support == type_support
                && final(self).qos == options.qos && final(self).pending@ == Seq::<Vec<
                u8,
            >>::empty() && *final(node) == (NodeResource {
                subscription_count: (old(node).subscription_count + 1) as usize,
                ..*old(node)
            }),
            result matches Err(_) ==> *final(self) == *old(self) && *final(node) == *old(node),
            !old(node).live ==> (result matches Err(e) && e == RclReturnCode::NodeInvalid),
            old(node).live && old(node).subscription_count == usize::MAX ==> (result matches Err(
                e,
            ) && e == RclReturnCode::BadAlloc),
    {
        if !node.live {
            return Err(RclReturnCode::NodeInvalid);
        }
        if node.subscription_count == usize::MAX {
            return Err(RclReturnCode::BadAlloc);
        }
        node.subscription_count = node.subscription_count + 1;
        self.state = ResourceState::Live;
        self.topic = topic.to_owned();
        self.type_support = type_support;
        self.qos = options.qos;
        self.pending = Vec::new();
        Ok(())
    }

    /// Non-blocking fetch of at most one pending wire message.
    ///
    /// On a live resource with something pending, hands out the oldest
    /// message and removes it from the queue. On a live resource with
    /// nothing pending, reports the expected no-data condition and changes
    /// nothing, so repeated polls of an idle resource all see the same
    /// answer. On a resource that is not live, reports it invalid and
    /// changes nothing.
    pub fn take(&mut self) -> (result: Result<Vec<u8>, RclReturnCode>)
        ensures
            old(self).state == ResourceState::Live && old(self).pending@.len() > 0 ==> (result
                matches Ok(wire) && wire == old(self).pending@[0]
                && *final(self) == (SubscriptionResource {
                    pending: final(self).pending,
                    ..*old(self)
                })
                && final(self).pending@ == old(self).pending@.drop_first()),
            old(self).state == ResourceState::Live && old(self).pending@.len() == 0 ==> (result
                matches Err(e) && e == RclReturnCode::SubscriberError(
                SubscriberErrorCode::SubscriptionTakeFailed,
            ) && *final(self) == *old(self)),
            old(self).state != ResourceState::Live ==> (result matches Err(e) && e
                == RclReturnCode::SubscriberError(SubscriberErrorCode::SubscriptionInvalid)
                && *final(self) == *old(self)),
    {
        if self.state != ResourceState::Live {
            return Err(RclReturnCode::SubscriberError(SubscriberErrorCode::SubscriptionInvalid));
        }
        if self.pending.len() == 0 {
            return Err(RclReturnCode::SubscriberError(
                SubscriberErrorCode::SubscriptionTakeFailed,
            ));
        }
        let wire = self.pending.remove(0);
        proof {
            assert(self.pending@ =~= old(self).pending@.drop_first());
        }
        Ok(wire)
    }

    /// The transport handing in one message published on the resource's
    /// topic. A live resource queues it behind what is already pending; a
    /// resource in any other state drops it, since nobody can ever take it.
    pub fn deliver(&mut self, wire: Vec<u8>)
        ensures
            old(self).state == ResourceState::Live ==> *final(self) == (SubscriptionResource {
                pending: final(self).pending,
                ..*old(self)
            }) && final(self).pending@ == old(self).pending@.push(wire),
            old(self).state != ResourceState::Live ==> *final(self) == *old(self),
    {
        if self.state == ResourceState::Live {
            self.pending.push(wire);
        }
    }

    /// Finalization: releases a live resource and gives its registration
    /// back to the node. It acts exactly once — on a resource that is not
    /// live it changes nothing — and it never fails outward.
    ///
    /// The caller must hold exclusive access to both resources at once;
    /// here that is the two mutable borrows.
    pub fn fini(&mut self, node: &mut NodeResource)
        ensures
            (*final(self), *final(node)) == finalize_transition(*old(self), *old(node)),
            final(node).live == old(node).live,
    {
        if self.state == ResourceState::Live {
            self.state = ResourceState::Finalized;
            if node.subscription_count > 0 {
                node.subscription_count = node.subscription_count - 1;
            }
        }
    }
}

} // verus!
