//! JSON values that schema documents carry through as they are.

use vstd::prelude::*;

verus! {

/// `serde_json::Value`: any JSON value.  A document holds it and hands it on;
/// nothing here looks inside.
#[verifier::external_type_specification]
#[verifier::external_body]
pub struct ExJsonValue(serde_json::Value);

/// `serde_json::Value::default`, which gives the JSON `null`.  Nothing is
/// claimed of the value: it is only carried.
pub assume_specification[ <serde_json::Value as core::default::Default>::default ]() -> (value:
    serde_json::Value)
;

/// `serde_json::Value::clone`, which duplicates a JSON value.  Nothing is
/// claimed of the duplicate: it is only carried.
pub assume_specification[ <serde_json::Value as core::clone::Clone>::clone ](
    value: &serde_json::Value,
) -> (duplicate: serde_json::Value)
;

} // verus!
