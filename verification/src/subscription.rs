//! The subscription endpoint: construction, the typed data path, and the
//! type-erased interface a scheduler drives.

use vstd::prelude::*;
use vstd::rwlock::RwLock;

use core::marker::PhantomData;
use std::sync::Arc;

use crate::error::{RclReturnCode, SubscriberErrorCode};
use crate::message::Message;
use crate::middleware::{NodeResource, ResourceState, SubscriptionOptions, SubscriptionResource};
use crate::node::{Node, NodePred};
use crate::qos::QoSProfile;
use crate::topic::{topic_to_cstring, valid_topic_name};

verus! {

/// A user-supplied handler: consumes one decoded message, may keep state,
/// produces no result.
///
/// Each invocation holds exclusive access to the handler, so invocations of
/// one subscription's callback never interleave.
pub trait SubscriptionCallback<T>: Sized {
    /// What one invocation with `message` may do to the handler's state:
    /// `next` is a state the handler may be left in. An implementation pins
    /// this down as tightly as it wants its callers to know.
    spec fn call_post(self, message: T, next: Self) -> bool;

    /// Handle one decoded message.
    fn call(&mut self, message: T)
        ensures
            (*old(self)).call_post(message, *final(self)),
    ;
}

/// Owner of the middleware subscription resource.
///
/// The handle guarantees exclusive access to the resource — every operation
/// that touches it takes the handle exclusively — and it retains a share of
/// the node's participant resource, so the participant outlives the
/// subscription. Finalization happens while both are held at once.
pub struct SubscriptionHandle {
    sub: SubscriptionResource,
    node_handle: Arc<RwLock<NodeResource, NodePred>>,
}

impl SubscriptionHandle {
    /// The middleware resource this handle owns.
    pub closed spec fn resource(&self) -> SubscriptionResource {
        self.sub
    }

    /// Read access to the resource, for readiness polling by a scheduler.
    /// Exclusive use of the resource is the handle's own exclusivity: every
    /// mutating operation takes the handle exclusively.
    pub fn lock(&self) -> (resource: &SubscriptionResource)
        ensures
            *resource == self.resource(),
    {
        &self.sub
    }

    /// The transport handing in one wire message for this subscription.
    /// Queued if the resource is live, dropped otherwise.
    pub fn deliver(&mut self, wire: Vec<u8>)
        ensures
            old(self).resource().state == ResourceState::Live ==> final(self).resource() == (
            SubscriptionResource {
                pending: final(self).resource().pending,
                ..old(self).resource()
            }) && final(self).resource().pending@ == old(self).resource().pending@.push(wire),
            old(self).resource().state != ResourceState::Live ==> final(self).resource() == old(
                self,
            ).resource(),
    {
        self.sub.deliver(wire);
    }

    /// Finalizes the subscription resource: the teardown step of the
    /// subscription's life.
    ///
    /// Acquires the node's participant resource and holds it together with
    /// the subscription resource for the finalize call, which gives the
    /// registration back to the node. Acts exactly once — on a handle whose
    /// resource is already finalized it changes nothing — and never fails
    /// outward.
    pub fn fini(&mut self)
        ensures
            old(self).resource().state == ResourceState::Live ==> final(self).resource() == (
            SubscriptionResource { state: ResourceState::Finalized, ..old(self).resource() }),
            old(self).resource().state != ResourceState::Live ==> final(self).resource() == old(
                self,
            ).resource(),
    {
        let (mut node_resource, write_handle) = self.node_handle.acquire_write();
        self.sub.fini(&mut node_resource);
        write_handle.release_write(node_resource);
    }
}

/// The capability a scheduler needs from a subscription of any message
/// type: access to the resource handle for readiness polling, and a uniform
/// execute step. Holding values behind this trait, a scheduler drives many
/// subscriptions of different message types without knowing any of them.
pub trait SubscriptionBase {
    /// The middleware resource of this subscription.
    spec fn resource(&self) -> SubscriptionResource;

    /// The resource handle, for readiness polling.
    fn handle(&self) -> (handle: &SubscriptionHandle)
        ensures
            handle.resource() == self.resource(),
    ;

    /// One readiness event: fetch at most one pending message and deliver
    /// it to the callback.
    ///
    /// A readiness signal may be spurious — the poll may find nothing even
    /// though the scheduler was woken — so finding nothing pending is a
    /// successful no-op, never an error. Any other failure of the fetch
    /// propagates unchanged.
    fn execute(&mut self) -> (result: Result<(), RclReturnCode>)
        ensures
            result != Err::<(), RclReturnCode>(
                RclReturnCode::SubscriberError(SubscriberErrorCode::SubscriptionTakeFailed),
            ),
            old(self).resource().state == ResourceState::Live && old(
                self,
            ).resource().pending@.len() == 0 ==> (result matches Ok(()) && final(self).resource()
                == old(self).resource()),
            old(self).resource().state == ResourceState::Live && old(
                self,
            ).resource().pending@.len() > 0 ==> (result matches Ok(())
                && final(self).resource() == (SubscriptionResource {
                    pending: final(self).resource().pending,
                    ..old(self).resource()
                })
                && final(self).resource().pending@ == old(self).resource().pending@.drop_first()),
            old(self).resource().state != ResourceState::Live ==> (result matches Err(e) && e
                == RclReturnCode::SubscriberError(SubscriberErrorCode::SubscriptionInvalid)
                && final(self).resource() == old(self).resource()),
    ;
}

/// A subscription to one topic of one message type.
///
/// It owns its resource handle and its callback; the type-erased view of
/// the same endpoint is [`SubscriptionBase`], which every `Subscription`
/// implements.
pub struct Subscription<T: Message, F: SubscriptionCallback<T>> {
    pub handle: SubscriptionHandle,
    pub callback: F,
    pub message_type: PhantomData<T>,
}

impl<T: Message, F: SubscriptionCallback<T>> Subscription<T, F> {
    /// Whether the subscription's resource is live.
    pub open spec fn live(&self) -> bool {
        self.handle.resource().state == ResourceState::Live
    }

    /// The wire messages delivered and not yet taken, oldest first.
    pub open spec fn pending_wires(&self) -> Seq<Vec<u8>> {
        self.handle.resource().pending@
    }

    /// The topic name the subscription was registered with.
    pub open spec fn topic_name(&self) -> Seq<char> {
        self.handle.resource().topic@
    }

    /// The profile the subscription was registered with.
    pub open spec fn qos(&self) -> QoSProfile {
        self.handle.resource().qos
    }

    /// Creates a subscription: registers interest in `topic` on `node`.
    ///
    /// Returns either a live, fully constructed subscription — registered
    /// with exactly the given topic and profile, nothing pending, callback
    /// untouched — or a classified error; never a partial object. A topic
    /// name with an embedded null character is rejected as a configuration
    /// error before the node is touched; otherwise only the middleware
    /// registration itself can fail.
    pub fn new(node: &Node, topic: &str, qos: QoSProfile, callback: F) -> (result: Result<
        Self,
        RclReturnCode,
    >)
        ensures
            !valid_topic_name(topic@) ==> (result matches Err(e) && e
                == RclReturnCode::InvalidArgument),
            result matches Ok(subscription) ==> subscription.live() && subscription.topic_name()
                == topic@ && subscription.qos() == qos && subscription.pending_wires() == Seq::<
                Vec<u8>,
            >::empty() && subscription.handle.resource().type_support.name@ == T::name_spec()
                && subscription.callback == callback,
            result matches Err(e) ==> (e == RclReturnCode::InvalidArgument || e
                == RclReturnCode::NodeInvalid || e == RclReturnCode::BadAlloc),
            valid_topic_name(topic@) ==> (result matches Err(e) ==> (e == RclReturnCode::NodeInvalid
                || e == RclReturnCode::BadAlloc)),
    {
        let mut resource = SubscriptionResource::zero_initialized();
        let type_support = T::type_support();
        if topic_to_cstring(topic).is_none() {
            return Err(RclReturnCode::InvalidArgument);
        }
        let mut options = SubscriptionOptions::default_options();
        options.qos = qos;
        let (mut node_resource, write_handle) = node.handle.acquire_write();
        let init_result = resource.init(&mut node_resource, type_support, topic, &options);
        write_handle.release_write(node_resource);
        match init_result {
            Ok(()) => Ok(
                Subscription {
                    handle: SubscriptionHandle { sub: resource, node_handle: node.handle.clone() },
                    callback,
                    message_type: PhantomData,
                },
            ),
            Err(code) => Err(code),
        }
    }

    /// Fetches at most one pending message, decoded, without blocking.
    ///
    /// With something pending, returns the oldest message decoded exactly as
    /// the codec says. With nothing pending, returns the no-data condition —
    /// a normal outcome, distinct from every other error — and changes
    /// nothing, so repeated calls on an idle subscription all answer alike.
    /// On a finalized subscription, reports the resource invalid. The
    /// callback is never touched.
    pub fn take(&mut self) -> (result: Result<T, RclReturnCode>)
        ensures
            final(self).callback == old(self).callback,
            old(self).live() && old(self).pending_wires().len() > 0 ==> (result matches Ok(message)
                && message == T::decode_spec(old(self).pending_wires()[0]@)
                && final(self).handle.resource() == (SubscriptionResource {
                    pending: final(self).handle.resource().pending,
                    ..old(self).handle.resource()
                })
                && final(self).pending_wires() == old(self).pending_wires().drop_first()),
            old(self).live() && old(self).pending_wires().len() == 0 ==> (result matches Err(e)
                && e == RclReturnCode::SubscriberError(SubscriberErrorCode::SubscriptionTakeFailed)
                && final(self).handle.resource() == old(self).handle.resource()),
            !old(self).live() ==> (result matches Err(e) && e == RclReturnCode::SubscriberError(
                SubscriberErrorCode::SubscriptionInvalid,
            ) && final(self).handle.resource() == old(self).handle.resource()),
    {
        let wire = match self.handle.sub.take() {
            Ok(wire) => wire,
            Err(code) => {
                return Err(code);
            },
        };
        Ok(T::from_wire(wire))
    }
}

impl<T: Message, F: SubscriptionCallback<T>> SubscriptionBase for Subscription<T, F> {
    open spec fn resource(&self) -> SubscriptionResource {
        self.handle.resource()
    }

    fn handle(&self) -> (handle: &SubscriptionHandle) {
        &self.handle
    }

    /// Beyond the type-erased contract: with exactly the oldest pending
    /// message decoded, the callback is invoked exactly once, and it is not
    /// touched at all when nothing was pending or the resource was not
    /// live.
    fn execute(&mut self) -> (result: Result<(), RclReturnCode>)
        ensures
            old(self).live() && old(self).pending_wires().len() > 0 ==> old(
                self,
            ).callback.call_post(
                T::decode_spec(old(self).pending_wires()[0]@),
                final(self).callback,
            ),
            old(self).live() && old(self).pending_wires().len() == 0 ==> final(self).callback
                == old(self).callback,
            !old(self).live() ==> final(self).callback == old(self).callback,
    {
        let message = match self.take() {
            Ok(message) => message,
            Err(RclReturnCode::SubscriberError(SubscriberErrorCode::SubscriptionTakeFailed)) => {
                return Ok(());
            },
            Err(code) => {
                return Err(code);
            },
        };
        self.callback.call(message);
        Ok(())
    }
}

} // verus!
