//! A concrete message type and a concrete callback.
//!
//! [`UInt64Message`] carries one unsigned integer, encoded on the wire as
//! eight little-endian bytes; [`RecordingCallback`] appends every received
//! value to a log. Together they give the subscription layer a fully
//! specified instance of its two traits.

use vstd::prelude::*;

use crate::message::{Message, MessageTypeSupport};
use crate::subscription::SubscriptionCallback;

verus! {

/// A message holding one unsigned 64-bit integer.
#[derive(Clone, Copy, PartialEq, Eq, Structural, Debug)]
pub struct UInt64Message {
    pub data: u64,
}

impl UInt64Message {
    /// Encodes the value as its wire representation. The result decodes
    /// back to exactly this message.
    pub fn to_wire(&self) -> (wire: Vec<u8>)
        ensures
            wire@.len() == 8,
            UInt64Message::decode_spec(wire@) == *self,
    {
        let data = self.data;
        let mut wire: Vec<u8> = Vec::new();
        wire.push((data % 0x100) as u8);
        wire.push(((data / 0x100) % 0x100) as u8);
        wire.push(((data / 0x1_0000) % 0x100) as u8);
        wire.push(((data / 0x100_0000) % 0x100) as u8);
        wire.push(((data / 0x1_0000_0000) % 0x100) as u8);
        wire.push(((data / 0x100_0000_0000) % 0x100) as u8);
        wire.push(((data / 0x1_0000_0000_0000) % 0x100) as u8);
        wire.push(((data / 0x100_0000_0000_0000) % 0x100) as u8);
        proof {
            assert((data % 0x100) + (data / 0x100 % 0x100) * 0x100 + (data / 0x1_0000 % 0x100)
                * 0x1_0000 + (data / 0x100_0000 % 0x100) * 0x100_0000 + (data / 0x1_0000_0000
                % 0x100) * 0x1_0000_0000 + (data / 0x100_0000_0000 % 0x100) * 0x100_0000_0000 + (
            data / 0x1_0000_0000_0000 % 0x100) * 0x1_0000_0000_0000 + (data / 0x100_0000_0000_0000
                % 0x100) * 0x100_0000_0000_0000 == data) by (bit_vector);
        }
        wire
    }
}

impl Message for UInt64Message {
    /// Eight wire bytes are the value in little-endian order; any other
    /// length decodes to zero.
    open spec fn decode_spec(wire: Seq<u8>) -> Self {
        if wire.len() == 8 {
            UInt64Message {
                data: (wire[0] + wire[1] * 0x100 + wire[2] * 0x1_0000 + wire[3] * 0x100_0000
                    + wire[4] * 0x1_0000_0000 + wire[5] * 0x100_0000_0000 + wire[6]
                    * 0x1_0000_0000_0000 + wire[7] * 0x100_0000_0000_0000) as u64,
            }
        } else {
            UInt64Message { data: 0 }
        }
    }

    open spec fn name_spec() -> Seq<char> {
        "std_msgs/msg/UInt64"@
    }

    fn from_wire(wire: Vec<u8>) -> (message: Self) {
        if wire.len() == 8 {
            let b0 = wire[0] as u64;
            let b1 = wire[1] as u64;
            let b2 = wire[2] as u64;
            let b3 = wire[3] as u64;
            let b4 = wire[4] as u64;
            let b5 = wire[5] as u64;
            let b6 = wire[6] as u64;
            let b7 = wire[7] as u64;
            let data = b0 + b1 * 0x100 + b2 * 0x1_0000 + b3 * 0x100_0000 + b4 * 0x1_0000_0000 + b5
                * 0x100_0000_0000 + b6 * 0x1_0000_0000_0000 + b7 * 0x100_0000_0000_0000;
            UInt64Message { data }
        } else {
            UInt64Message { data: 0 }
        }
    }

    fn type_support() -> (ts: MessageTypeSupport) {
        MessageTypeSupport { name: "std_msgs/msg/UInt64".to_owned() }
    }
}

/// A callback that appends every received value to a log, so a test or an
/// application can observe exactly what was delivered, in order.
pub struct RecordingCallback {
    pub log: Vec<u64>,
}

impl RecordingCallback {
    /// A callback with an empty log.
    pub fn new() -> (callback: RecordingCallback)
        ensures
            callback.log@ == Seq::<u64>::empty(),
    {
        RecordingCallback { log: Vec::new() }
    }
}

impl SubscriptionCallback<UInt64Message> for RecordingCallback {
    /// One invocation appends exactly the received value to the log.
    open spec fn call_post(self, message: UInt64Message, next: Self) -> bool {
        next.log@ == self.log@.push(message.data)
    }

    fn call(&mut self, message: UInt64Message) {
        self.log.push(message.data);
    }
}

} // verus!
