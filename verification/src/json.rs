use vstd::prelude::*;

verus! {

/// Declares serde_json::Value so that a JSON document can sit inside the
/// crate's own types. The document is opaque here: the client carries it to
/// the transport and never looks inside it.
#[verifier::external_type_specification]
#[verifier::external_body]
pub struct ExValue(serde_json::Value);

/// Relies on serde_json::Value's derived Clone, which copies the whole
/// document, so the clone equals the original.
pub assume_specification[ <serde_json::Value as Clone>::clone ](
    v: &serde_json::Value,
) -> (r: serde_json::Value)
    ensures
        r == *v,
;

} // verus!
