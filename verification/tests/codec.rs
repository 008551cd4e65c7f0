use rclrs::{
    DurabilityPolicy, HistoryPolicy, Message, QoSProfile, ReliabilityPolicy, UInt64Message,
};

#[test]
fn uint64_round_trip() {
    let message = UInt64Message { data: 42 };
    let wire = message.to_wire();
    assert_eq!(wire, vec![42, 0, 0, 0, 0, 0, 0, 0]);
    assert_eq!(UInt64Message::from_wire(wire), message);
}

#[test]
fn uint64_wire_layout_is_little_endian() {
    let message = UInt64Message { data: 0x0102_0304_0506_0708 };
    let wire = message.to_wire();
    assert_eq!(wire, vec![8, 7, 6, 5, 4, 3, 2, 1]);
    assert_eq!(UInt64Message::from_wire(wire).data, 0x0102_0304_0506_0708);
}

#[test]
fn uint64_round_trip_extremes() {
    for data in [0u64, 1, u64::MAX, u64::MAX - 1] {
        let message = UInt64Message { data };
        assert_eq!(UInt64Message::from_wire(message.to_wire()), message);
    }
}

#[test]
fn uint64_wrong_wire_length_decodes_to_zero() {
    assert_eq!(UInt64Message::from_wire(vec![1, 2, 3]).data, 0);
    assert_eq!(UInt64Message::from_wire(vec![]).data, 0);
}

#[test]
fn uint64_type_support_name() {
    assert_eq!(UInt64Message::type_support().name, "std_msgs/msg/UInt64");
}

#[test]
fn qos_default_profile_values() {
    let profile = QoSProfile::default();
    assert_eq!(profile.history, HistoryPolicy::KeepLast);
    assert_eq!(profile.depth, 10);
    assert_eq!(profile.reliability, ReliabilityPolicy::Reliable);
    assert_eq!(profile.durability, DurabilityPolicy::Volatile);
}
