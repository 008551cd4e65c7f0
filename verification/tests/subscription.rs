use rclrs::{
    DurabilityPolicy, HistoryPolicy, Node, QoSProfile, RclReturnCode, RecordingCallback,
    ReliabilityPolicy, ResourceState, SubscriberErrorCode, Subscription, SubscriptionBase,
    UInt64Message,
};

fn new_subscription(
    node: &Node,
    topic: &str,
) -> Result<Subscription<UInt64Message, RecordingCallback>, RclReturnCode> {
    Subscription::new(node, topic, QoSProfile::default(), RecordingCallback::new())
}

#[test]
fn construction_returns_live_subscription() {
    let node = Node::new();
    let subscription = new_subscription(&node, "/t").unwrap();
    let resource = subscription.handle.lock();
    assert_eq!(resource.state, ResourceState::Live);
    assert_eq!(resource.topic, "/t");
    assert_eq!(resource.qos, QoSProfile::default());
    assert_eq!(resource.type_support.name, "std_msgs/msg/UInt64");
    assert_eq!(resource.pending.len(), 0);
    assert_eq!(node.subscription_count(), 1);
}

#[test]
fn construction_transports_the_profile_verbatim() {
    let node = Node::new();
    let qos = QoSProfile {
        history: HistoryPolicy::KeepAll,
        depth: 1,
        reliability: ReliabilityPolicy::BestEffort,
        durability: DurabilityPolicy::TransientLocal,
    };
    let subscription =
        Subscription::<UInt64Message, RecordingCallback>::new(&node, "/t", qos, RecordingCallback::new())
            .unwrap();
    assert_eq!(subscription.handle.lock().qos, qos);
}

#[test]
fn construction_rejects_embedded_null() {
    let node = Node::new();
    let result = new_subscription(&node, "bad\0topic");
    assert_eq!(result.err().unwrap(), RclReturnCode::InvalidArgument);
    // Nothing was registered, so nothing leaked.
    assert_eq!(node.subscription_count(), 0);
}

#[test]
fn construction_against_dead_node_is_classified() {
    let node = Node::new();
    node.shutdown();
    let result = new_subscription(&node, "/t");
    assert_eq!(result.err().unwrap(), RclReturnCode::NodeInvalid);
    assert_eq!(node.subscription_count(), 0);
}

#[test]
fn take_with_nothing_pending_reports_no_data() {
    let node = Node::new();
    let mut subscription = new_subscription(&node, "/t").unwrap();
    let result = subscription.take();
    assert_eq!(
        result.err().unwrap(),
        RclReturnCode::SubscriberError(SubscriberErrorCode::SubscriptionTakeFailed)
    );
    // The condition is stable: polling again answers the same.
    let again = subscription.take();
    assert_eq!(
        again.err().unwrap(),
        RclReturnCode::SubscriberError(SubscriberErrorCode::SubscriptionTakeFailed)
    );
}

#[test]
fn execute_with_nothing_pending_is_a_successful_no_op() {
    let node = Node::new();
    let mut subscription = new_subscription(&node, "/t").unwrap();
    assert!(subscription.execute().is_ok());
    assert!(subscription.callback.log.is_empty());
}

#[test]
fn execute_delivers_one_message_to_the_callback() {
    let node = Node::new();
    let mut subscription = new_subscription(&node, "/t").unwrap();
    subscription.handle.deliver(UInt64Message { data: 7 }.to_wire());
    assert!(subscription.execute().is_ok());
    assert_eq!(subscription.callback.log, vec![7]);
    // The subscription stays live and ready for further calls.
    assert_eq!(subscription.handle.lock().state, ResourceState::Live);
    assert_eq!(
        subscription.take().err().unwrap(),
        RclReturnCode::SubscriberError(SubscriberErrorCode::SubscriptionTakeFailed)
    );
}

#[test]
fn scenario_one_published_value_then_spurious_wakeup() {
    let node = Node::new();
    let mut subscription = new_subscription(&node, "/t").unwrap();
    subscription.handle.deliver(UInt64Message { data: 42 }.to_wire());
    assert!(subscription.execute().is_ok());
    assert_eq!(subscription.callback.log, vec![42]);
    // A readiness signal with nothing new published: success, log unchanged.
    assert!(subscription.execute().is_ok());
    assert_eq!(subscription.callback.log, vec![42]);
}

#[test]
fn take_hands_out_oldest_first() {
    let node = Node::new();
    let mut subscription = new_subscription(&node, "/t").unwrap();
    subscription.handle.deliver(UInt64Message { data: 1 }.to_wire());
    subscription.handle.deliver(UInt64Message { data: 2 }.to_wire());
    assert_eq!(subscription.take().unwrap(), UInt64Message { data: 1 });
    assert_eq!(subscription.take().unwrap(), UInt64Message { data: 2 });
}

#[test]
fn handle_gives_access_to_the_resource() {
    let node = Node::new();
    let subscription = new_subscription(&node, "/t").unwrap();
    let base: &dyn SubscriptionBase = &subscription;
    assert_eq!(base.handle().lock().state, ResourceState::Live);
    assert_eq!(base.handle().lock().topic, "/t");
}

#[test]
fn two_subscriptions_on_one_node_are_independent() {
    let node = Node::new();
    let mut first = new_subscription(&node, "/a").unwrap();
    let mut second = new_subscription(&node, "/b").unwrap();
    assert_eq!(node.subscription_count(), 2);

    first.handle.deliver(UInt64Message { data: 1 }.to_wire());
    second.handle.deliver(UInt64Message { data: 2 }.to_wire());
    assert!(first.execute().is_ok());
    assert!(second.execute().is_ok());
    assert_eq!(first.callback.log, vec![1]);
    assert_eq!(second.callback.log, vec![2]);

    // Destroying one leaves the other's resource valid and usable.
    first.handle.fini();
    assert_eq!(node.subscription_count(), 1);
    assert!(node.is_live());
    assert_eq!(second.handle.lock().state, ResourceState::Live);
    second.handle.deliver(UInt64Message { data: 3 }.to_wire());
    assert_eq!(second.take().unwrap(), UInt64Message { data: 3 });
}

#[test]
fn fini_finalizes_exactly_once() {
    let node = Node::new();
    let mut subscription = new_subscription(&node, "/t").unwrap();
    assert_eq!(node.subscription_count(), 1);
    subscription.handle.fini();
    assert_eq!(subscription.handle.lock().state, ResourceState::Finalized);
    assert_eq!(node.subscription_count(), 0);
    // A second finalization changes nothing: no double release.
    subscription.handle.fini();
    assert_eq!(subscription.handle.lock().state, ResourceState::Finalized);
    assert_eq!(node.subscription_count(), 0);
}

#[test]
fn operations_after_fini_report_the_resource_invalid() {
    let node = Node::new();
    let mut subscription = new_subscription(&node, "/t").unwrap();
    subscription.handle.fini();
    assert_eq!(
        subscription.take().err().unwrap(),
        RclReturnCode::SubscriberError(SubscriberErrorCode::SubscriptionInvalid)
    );
    assert_eq!(
        subscription.execute().err().unwrap(),
        RclReturnCode::SubscriberError(SubscriberErrorCode::SubscriptionInvalid)
    );
    assert!(subscription.callback.log.is_empty());
}

#[test]
fn delivery_after_fini_is_dropped() {
    let node = Node::new();
    let mut subscription = new_subscription(&node, "/t").unwrap();
    subscription.handle.fini();
    subscription.handle.deliver(UInt64Message { data: 9 }.to_wire());
    assert_eq!(subscription.handle.lock().pending.len(), 0);
}
