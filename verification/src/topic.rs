//! Topic names and their wire representation.
//!
//! The middleware takes topic names as C strings, so a name with an embedded
//! null byte has no wire representation and must be rejected before any
//! middleware call. The conversion itself is done by `cstr_core`; its
//! outcome is the only thing the subscription layer relies on.

use vstd::prelude::*;

verus! {

/// A topic name is representable on the wire exactly when it carries no
/// embedded null character: UTF-8 encodes a null byte only for `'\0'`.
pub open spec fn valid_topic_name(name: Seq<char>) -> bool {
    forall|i: int| 0 <= i < name.len() ==> name[i] != '\0'
}

#[verifier::external_type_specification]
#[verifier::external_body]
pub struct ExCString(cstr_core::CString);

/// Relies on cstr_core::CString::new: it returns `Ok` exactly when the
/// given bytes hold no null byte, and for a `&str` argument the UTF-8 bytes
/// hold a null byte exactly when the string holds the character `'\0'`.
#[verifier::external_body]
pub(crate) fn topic_to_cstring(name: &str) -> (result: Option<cstr_core::CString>)
    ensures
        result is Some <==> valid_topic_name(name@),
{
    cstr_core::CString::new(name).ok()
}

} // verus!
