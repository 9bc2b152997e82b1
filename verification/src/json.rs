//! The parameter of a block helper, as the template engine hands it over: a
//! JSON value of serde_json. The questions that the helpers have for it are
//! asked here: whether it is a number, whether it is null, and what items
//! it holds as an array.

use vstd::prelude::*;

verus! {

/// serde_json's `Value`: a JSON value. Nothing inside it is seen here.
#[verifier::external_type_specification]
#[verifier::external_body]
pub struct ExJsonValue(serde_json::Value);

/// Whether `Value::is_number` holds of the value.
pub uninterp spec fn json_is_number(value: serde_json::Value) -> bool;

/// Whether `Value::is_null` holds of the value.
pub uninterp spec fn json_is_null(value: serde_json::Value) -> bool;

/// The items that `Value::as_array` finds in the value, in their order, where
/// it finds any.
pub uninterp spec fn json_items(value: serde_json::Value) -> Option<Seq<serde_json::Value>>;

/// Trusted: serde_json's `Value::is_number`, which tells whether the value is
/// the variant `Number`. The contract only names the answer.
#[verifier::external_body]
fn value_is_number(value: &serde_json::Value) -> (r: bool)
    ensures
        r == json_is_number(*value),
{
    value.is_number()
}

/// Trusted: serde_json's `Value::is_null`, which tells whether the value is the
/// variant `Null`. The contract only names the answer.
#[verifier::external_body]
fn value_is_null(value: &serde_json::Value) -> (r: bool)
    ensures
        r == json_is_null(*value),
{
    value.is_null()
}

/// Trusted: serde_json's `Value::as_array`, which hands out the vector inside
/// the variant `Array` and `None` for every other variant. The contract only
/// names what is handed out.
#[verifier::external_body]
pub(crate) fn value_as_array(value: &serde_json::Value) -> (r: Option<&Vec<serde_json::Value>>)
    ensures
        match r {
            Some(items) => json_items(*value) == Some(items@),
            None => json_items(*value) is None,
        },
{
    value.as_array()
}

/// What the parameter of `if_reply` is, as far as that helper asks: a
/// number, null, or anything else.
#[derive(Debug, Clone, Copy, PartialEq, Eq, Structural)]
pub enum Param {
    Number,
    Null,
    Other,
}

/// The parameter that a JSON value makes: a number where the value says it
/// is one, else null where it says it is null, and else neither.
pub open spec fn json_param(value: serde_json::Value) -> Param {
    if json_is_number(value) {
        Param::Number
    } else if json_is_null(value) {
        Param::Null
    } else {
        Param::Other
    }
}

/// Sorts a JSON value into what `if_reply` tells apart.
pub fn classify(value: &serde_json::Value) -> (param: Param)
    ensures
        param == json_param(*value),
{
    if value_is_number(value) {
        Param::Number
    } else if value_is_null(value) {
        Param::Null
    } else {
        Param::Other
    }
}

} // verus!
