//! JSON documents, as `serde_json` reads and holds them.
//!
//! Nothing in this file is proved. It states, over a model of the document,
//! what the functions of `serde_json` that the decoder calls return.

use vstd::prelude::*;

verus! {

/// The mathematical model of a JSON document.
///
/// An object is a map, since `serde_json` keeps one value for each key. What
/// a number holds is not modelled.
pub enum JsonView {
    Null,
    Bool(bool),
    Number,
    Text(Seq<char>),
    Array(Seq<JsonView>),
    Object(Map<Seq<char>, JsonView>),
}

/// The member of an object under a key; `None` where the document is no
/// object or the object has no such key.
pub open spec fn member_of(tree: JsonView, key: Seq<char>) -> Option<JsonView> {
    match tree {
        JsonView::Object(members) => if members.contains_key(key) {
            Some(members[key])
        } else {
            None
        },
        _ => None,
    }
}

#[verifier::external_type_specification]
#[verifier::external_body]
pub struct ExValue(serde_json::Value);

#[verifier::external_type_specification]
#[verifier::external_body]
pub struct ExError(serde_json::Error);

/// The document that a `serde_json::Value` holds.
pub uninterp spec fn json_view(value: serde_json::Value) -> JsonView;

/// The document that `serde_json::from_str` reads from a text; `None` where
/// it rejects the text.
pub uninterp spec fn parsed_json(text: Seq<char>) -> Option<JsonView>;

/// The documents that the values of a sequence hold, in their order.
pub open spec fn json_views(values: Seq<serde_json::Value>) -> Seq<JsonView> {
    values.map_values(|v: serde_json::Value| json_view(v))
}

/// `serde_json::from_str` at the type `serde_json::Value`. The value that it
/// gives holds the document that the text denotes; where it gives an error,
/// the text denotes none.
#[verifier::external_body]
pub(crate) fn parse(text: &str) -> (result: Result<serde_json::Value, serde_json::Error>)
    ensures
        match result {
            Ok(value) => parsed_json(text@) == Some(json_view(value)),
            Err(_) => parsed_json(text@) is None,
        },
{
    serde_json::from_str(text)
}

/// `serde_json::Value::get` with a string as the index. It gives the member
/// of an object under the key, and `None` where the value is no object or
/// the object has no such key.
#[verifier::external_body]
pub(crate) fn member<'a>(value: &'a serde_json::Value, key: &str) -> (found: Option<
    &'a serde_json::Value,
>)
    ensures
        match found {
            Some(m) => member_of(json_view(*value), key@) == Some(json_view(*m)),
            None => member_of(json_view(*value), key@) is None,
        },
{
    value.get(key)
}

/// `serde_json::Value::as_str` gives the text of a string, and `None` for
/// any other value.
pub assume_specification[ serde_json::Value::as_str ](value: &serde_json::Value) -> (text: Option<
    &str,
>)
    ensures
        match text {
            Some(t) => json_view(*value) == JsonView::Text(t@),
            None => !(json_view(*value) is Text),
        },
;

/// `serde_json::Value::as_array` gives the elements of an array, and `None`
/// for any other value.
pub assume_specification[ serde_json::Value::as_array ](value: &serde_json::Value) -> (items:
    Option<&Vec<serde_json::Value>>)
    ensures
        match items {
            Some(list) => json_view(*value) == JsonView::Array(json_views(list@)),
            None => !(json_view(*value) is Array),
        },
;

/// `serde_json::Value::is_null` tells whether the value is `null`.
pub assume_specification[ serde_json::Value::is_null ](value: &serde_json::Value) -> (null: bool)
    ensures
        null == (json_view(*value) is Null),
;

/// `serde_json::Value::is_object` tells whether the value is an object.
pub assume_specification[ serde_json::Value::is_object ](value: &serde_json::Value) -> (object:
    bool)
    ensures
        object == (json_view(*value) is Object),
;

} // verus!
