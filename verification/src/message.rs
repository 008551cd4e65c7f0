//! The codec contract between the wire and the application type.
//!
//! The middleware hands messages over as opaque wire bytes; a [`Message`]
//! type says how those bytes decode into an application value. Decoding is
//! total and a pure function of the bytes, so the subscription layer can
//! promise exactly which value a fetched message turns into.

use vstd::prelude::*;

verus! {

/// Runtime descriptor of a message type: the opaque capability token the
/// middleware registration call requires. One descriptor exists per
/// concrete message type and is discoverable without an instance.
#[derive(Debug)]
pub struct MessageTypeSupport {
    /// The middleware-facing name of the type.
    pub name: String,
}

/// An application-level message type that can be received from a topic.
pub trait Message: Sized {
    /// What a wire message means as a value of this type. Total: every byte
    /// sequence decodes to some value.
    spec fn decode_spec(wire: Seq<u8>) -> Self;

    /// The middleware-facing name of this type.
    spec fn name_spec() -> Seq<char>;

    /// Decode one wire message, exactly as [`Message::decode_spec`] says.
    fn from_wire(wire: Vec<u8>) -> (message: Self)
        ensures
            message == Self::decode_spec(wire@),
    ;

    /// The type's runtime descriptor, needed to register a subscription.
    fn type_support() -> (ts: MessageTypeSupport)
        ensures
            ts.name@ == Self::name_spec(),
    ;
}

} // verus!
