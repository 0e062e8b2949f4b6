//! Declarations for the structured values carried through tool calls and
//! provider payloads, together with the few operations the library needs
//! on them.

use vstd::prelude::*;

verus! {

/// Declares `serde_json::Value`, the structured-value type carried in
/// tool arguments, tool outputs and raw payloads; the library passes
/// such values through without reading into them.
#[verifier::external_type_specification]
#[verifier::external_body]
pub struct ExValue(serde_json::Value);

/// The JSON text of a structured value, which depends on the value alone.
pub uninterp spec fn json_text_of(v: serde_json::Value) -> Seq<char>;

/// Relies on `serde_json::Value`'s `Display`: serialization to JSON text is
/// a pure function of the value.
#[verifier::external_body]
pub fn value_to_text(v: &serde_json::Value) -> (r: String)
    ensures
        r@ == json_text_of(*v),
{
    v.to_string()
}

/// Relies on `serde_json::Value`'s `Clone`: the clone is the same value.
#[verifier::external_body]
pub fn clone_value(v: &serde_json::Value) -> (r: serde_json::Value)
    ensures
        r == *v,
{
    v.clone()
}

} // verus!
