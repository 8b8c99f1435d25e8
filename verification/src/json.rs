//! JSON documents, read and written by `serde_json`.
//!
//! A document is carried as a `serde_json::Value`. What it holds is described
//! by `JsonView`; every function below states its effect over that model.
//! None of these bodies is verified: each makes one call into `serde_json`
//! and its contract records what that call is documented to do.

use vstd::prelude::*;

verus! {

#[verifier::external_type_specification]
#[verifier::external_body]
pub struct ExJsonValue(serde_json::Value);

#[verifier::external_type_specification]
#[verifier::external_body]
pub struct ExJsonError(serde_json::Error);

/// What a JSON document holds.
pub ghost enum JsonView {
    Null,
    Bool(bool),
    /// A number, by the text that `serde_json` prints for it.
    Number(Seq<char>),
    Text(Seq<char>),
    List(Seq<JsonView>),
    /// An object: each key occurs once.
    Record(Map<Seq<char>, JsonView>),
}

impl JsonView {
    /// The value stored under `key` when `self` is an object that has it.
    pub open spec fn field(self, key: Seq<char>) -> Option<JsonView> {
        match self {
            JsonView::Record(fields) => if fields.dom().contains(key) {
                Some(fields[key])
            } else {
                None
            },
            _ => None,
        }
    }

    /// The document holds no number, and its lists and objects are nested
    /// at most `depth` deep.
    pub open spec fn plain_within(self, depth: nat) -> bool
        decreases depth,
    {
        match self {
            JsonView::Number(_) => false,
            JsonView::List(items) => depth > 0 && forall|i: int|
                0 <= i < items.len() ==> (#[trigger] items[i]).plain_within((depth - 1) as nat),
            JsonView::Record(fields) => depth > 0 && forall|key: Seq<char>|
                fields.dom().contains(key) ==> (#[trigger] fields[key]).plain_within(
                    (depth - 1) as nat,
                ),
            _ => true,
        }
    }
}

/// The deepest nesting of lists and objects that `serde_json` reads back
/// with its default recursion limit.
pub open spec fn max_nesting() -> nat {
    127
}

/// What a `serde_json::Value` holds.
pub uninterp spec fn json_tree(value: serde_json::Value) -> JsonView;

/// What `serde_json::from_str` makes of a text: the document, or `None` where
/// it reports an error.
pub uninterp spec fn json_parsed(text: Seq<char>) -> Option<JsonView>;

/// The text that `serde_json::to_string` writes for a document, or `None`
/// where it reports an error.
pub uninterp spec fn json_written(tree: JsonView) -> Option<Seq<char>>;

/// The documents held by a vector of values, in order.
pub open spec fn json_trees(values: Seq<serde_json::Value>) -> Seq<JsonView> {
    Seq::new(values.len(), |i: int| json_tree(values[i]))
}

/// No key occurs twice.
pub open spec fn keys_distinct(fields: Seq<(String, serde_json::Value)>) -> bool {
    forall|i: int, j: int|
        0 <= i < j < fields.len() ==> (#[trigger] fields[i]).0@ != (#[trigger] fields[j]).0@
}

/// `tree` is the object that has exactly the given fields: its keys are
/// the keys of the fields, and under the key of each field stands what the
/// value of that field holds.
pub open spec fn is_record_of(tree: JsonView, fields: Seq<(String, serde_json::Value)>) -> bool {
    &&& tree matches JsonView::Record(record)
    &&& forall|key: Seq<char>| #[trigger]
        record.dom().contains(key) <==> exists|i: int|
            0 <= i < fields.len() && (#[trigger] fields[i]).0@ == key
    &&& forall|i: int|
        0 <= i < fields.len() ==> record[(#[trigger] fields[i]).0@] == json_tree(fields[i].1)
}

/// `serde_json::from_str` at type `Value`: parses a JSON text. The result is
/// a function of the text alone, named `json_parsed`.
#[verifier::external_body]
pub(crate) fn value_from_text(text: &str) -> (parsed: Result<serde_json::Value, serde_json::Error>)
    ensures
        match parsed {
            Ok(value) => json_parsed(text@) == Some(json_tree(value)),
            Err(_) => json_parsed(text@) is None,
        },
{
    serde_json::from_str::<serde_json::Value>(text)
}

/// `serde_json::to_string` at type `Value`: writes a document as compact JSON
/// text. The text is a function of the document alone, named `json_written`.
/// A document without numbers, nested no deeper than the parser's recursion
/// limit, reads back as the document that was written.
#[verifier::external_body]
pub(crate) fn value_to_text(value: &serde_json::Value) -> (written: Result<
    String,
    serde_json::Error,
>)
    ensures
        match written {
            Ok(text) => {
                &&& json_written(json_tree(*value)) == Some(text@)
                &&& json_tree(*value).plain_within(max_nesting()) ==> json_parsed(text@) == Some(
                    json_tree(*value),
                )
            },
            Err(_) => json_written(json_tree(*value)) is None,
        },
{
    serde_json::to_string(value)
}

/// `Value::get` with a string index: the value under `key`, where `value` is
/// an object that has that key.
#[verifier::external_body]
pub(crate) fn value_field<'a>(value: &'a serde_json::Value, key: &str) -> (found: Option<
    &'a serde_json::Value,
>)
    ensures
        match found {
            Some(inner) => json_tree(*value).field(key@) == Some(json_tree(*inner)),
            None => json_tree(*value).field(key@) is None,
        },
{
    value.get(key)
}

/// `Value::as_str`: the text of a JSON string, `None` for any other value.
#[verifier::external_body]
pub(crate) fn value_text<'a>(value: &'a serde_json::Value) -> (text: Option<&'a str>)
    ensures
        match text {
            Some(s) => json_tree(*value) == JsonView::Text(s@),
            None => !(json_tree(*value) is Text),
        },
{
    value.as_str()
}

/// `Value::as_array`: the items of a JSON array, `None` for any other value.
#[verifier::external_body]
pub(crate) fn value_items<'a>(value: &'a serde_json::Value) -> (items: Option<
    &'a Vec<serde_json::Value>,
>)
    ensures
        match items {
            Some(list) => json_tree(*value) == JsonView::List(json_trees(list@)),
            None => !(json_tree(*value) is List),
        },
{
    value.as_array()
}

/// `Value::String`: the JSON string with the given text.
#[verifier::external_body]
pub(crate) fn new_text(text: &str) -> (value: serde_json::Value)
    ensures
        json_tree(value) == JsonView::Text(text@),
{
    serde_json::Value::String(text.to_string())
}

/// `Value::Array`: the JSON array of the given items, in order.
#[verifier::external_body]
pub(crate) fn new_list(items: Vec<serde_json::Value>) -> (value: serde_json::Value)
    ensures
        json_tree(value) == JsonView::List(json_trees(items@)),
{
    serde_json::Value::Array(items)
}

/// `Value::Object`, with a `serde_json::Map` collected from the given
/// fields: the JSON object that has exactly those fields.
#[verifier::external_body]
pub(crate) fn new_record(fields: Vec<(String, serde_json::Value)>) -> (value: serde_json::Value)
    requires
        keys_distinct(fields@),
    ensures
        is_record_of(json_tree(value), fields@),
{
    serde_json::Value::Object(fields.into_iter().collect())
}

} // verus!
