//! JSON values of serde_json, as the gateway reads and builds them.
//!
//! `serde_json::Value` is opaque to the verifier; [`json_view`] gives each value its
//! mathematical content, a [`JsonModel`], and the wrappers below state what each
//! serde_json operation does over that content.
use vstd::prelude::*;

verus! {

/// The content of a JSON value.
pub enum JsonModel {
    Null,
    Bool(bool),
    /// A number, with its value where it is held as an integer.
    Number(Option<int>),
    Str(Seq<char>),
    Array(Seq<JsonModel>),
    Object(Map<Seq<char>, JsonModel>),
}

/// serde_json::Value, declared to the verifier as an opaque type.
#[verifier::external_type_specification]
#[verifier::external_body]
pub struct ExValue(serde_json::Value);

/// What a serde_json value holds.
pub uninterp spec fn json_view(v: serde_json::Value) -> JsonModel;

/// What serde_json makes of a text: `None` where it is not a JSON document.
pub uninterp spec fn parsed_json(text: Seq<char>) -> Option<JsonModel>;

/// The contents of a sequence of values.
pub open spec fn json_views(items: Seq<serde_json::Value>) -> Seq<JsonModel> {
    items.map_values(|v: serde_json::Value| json_view(v))
}

/// The content of an optional value.
pub open spec fn json_view_opt(r: Option<&serde_json::Value>) -> Option<JsonModel> {
    match r {
        Some(v) => Some(json_view(*v)),
        None => None,
    }
}

/// The object that holds the given entries.
pub open spec fn entries_map(entries: Seq<(Seq<char>, JsonModel)>) -> Map<Seq<char>, JsonModel>
    decreases entries.len(),
{
    if entries.len() == 0 {
        Map::empty()
    } else {
        entries_map(entries.drop_last()).insert(entries.last().0, entries.last().1)
    }
}

/// The content of each entry of a list of named values.
pub open spec fn entry_views(
    entries: Seq<(String, serde_json::Value)>,
) -> Seq<(Seq<char>, JsonModel)> {
    entries.map_values(|e: (String, serde_json::Value)| (e.0@, json_view(e.1)))
}

/// No two entries share a name.
pub open spec fn distinct_names<A>(entries: Seq<(Seq<char>, A)>) -> bool {
    forall|i: int, j: int|
        0 <= i < j < entries.len() ==> #[trigger] entries[i].0 != #[trigger] entries[j].0
}

/// The value reached from `j` by following the member names of `path`, one object at a
/// time.
pub open spec fn json_at(j: JsonModel, path: Seq<Seq<char>>) -> Option<JsonModel>
    decreases path.len(),
{
    if path.len() == 0 {
        Some(j)
    } else {
        match j {
            JsonModel::Object(m) => if m.contains_key(path[0]) {
                json_at(m[path[0]], path.drop_first())
            } else {
                None
            },
            _ => None,
        }
    }
}

/// Relies on serde_json::from_str: it parses a text into a value or reports that the
/// text is not JSON, and which of the two depends on the text alone.
#[verifier::external_body]
pub(crate) fn parse_json(text: &str) -> (r: Option<serde_json::Value>)
    ensures
        match r {
            Some(v) => parsed_json(text@) == Some(json_view(v)),
            None => parsed_json(text@) is None,
        },
{
    serde_json::from_str::<serde_json::Value>(text).ok()
}

/// Relies on serde_json::Value::get with a string key: the member of that name of an
/// object, and nothing for a value of another kind.
#[verifier::external_body]
pub(crate) fn member<'a>(v: &'a serde_json::Value, key: &str) -> (r: Option<&'a serde_json::Value>)
    ensures
        json_view_opt(r) == match json_view(*v) {
            JsonModel::Object(m) => if m.contains_key(key@) {
                Some(m[key@])
            } else {
                None
            },
            _ => None,
        },
{
    v.get(key)
}

/// Relies on serde_json::Value::is_object: whether the value is an object.
pub assume_specification[ serde_json::Value::is_object ](v: &serde_json::Value) -> (r: bool)
    ensures
        r == json_view(*v) is Object,
;

/// Relies on serde_json::Value::is_null: whether the value is null.
pub assume_specification[ serde_json::Value::is_null ](v: &serde_json::Value) -> (r: bool)
    ensures
        r == json_view(*v) is Null,
;

/// Relies on serde_json::Value::as_str: the characters of a string value, and nothing
/// for a value of another kind.
pub assume_specification[ serde_json::Value::as_str ](v: &serde_json::Value) -> (r: Option<&str>)
    ensures
        match json_view(*v) {
            JsonModel::Str(s) => r is Some && r->0@ == s,
            _ => r is None,
        },
;

/// Relies on serde_json::Value::as_array: the elements of an array value, and nothing
/// for a value of another kind.
pub assume_specification[ serde_json::Value::as_array ](v: &serde_json::Value) -> (r: Option<
    &Vec<serde_json::Value>,
>)
    ensures
        match json_view(*v) {
            JsonModel::Array(items) => r is Some && json_views(r->0@) == items,
            _ => r is None,
        },
;

/// Relies on the derived `Clone` of serde_json::Value: the copy holds the same content.
pub assume_specification[ <serde_json::Value as Clone>::clone ](v: &serde_json::Value) -> (r:
    serde_json::Value)
    ensures
        json_view(r) == json_view(*v),
;

/// Relies on the variant serde_json::Value::Null.
#[verifier::external_body]
pub(crate) fn null_value() -> (r: serde_json::Value)
    ensures
        json_view(r) == JsonModel::Null,
{
    serde_json::Value::Null
}

/// Relies on the variant serde_json::Value::String: a string value of these characters.
#[verifier::external_body]
pub(crate) fn text_value(s: String) -> (r: serde_json::Value)
    ensures
        json_view(r) == JsonModel::Str(s@),
{
    serde_json::Value::String(s)
}

/// Relies on `From<u64>` for serde_json::Value: a number held as that integer.
#[verifier::external_body]
pub(crate) fn count_value(n: u64) -> (r: serde_json::Value)
    ensures
        json_view(r) == JsonModel::Number(Some(n as int)),
{
    serde_json::Value::from(n)
}

/// Relies on the variant serde_json::Value::Array: an array of these elements, in order.
#[verifier::external_body]
pub(crate) fn array_value(items: Vec<serde_json::Value>) -> (r: serde_json::Value)
    ensures
        json_view(r) == JsonModel::Array(json_views(items@)),
{
    serde_json::Value::Array(items)
}

/// Relies on collecting into serde_json::Map and the variant serde_json::Value::Object:
/// an object that holds each entry under its name.
#[verifier::external_body]
pub(crate) fn object_value(entries: Vec<(String, serde_json::Value)>) -> (r: serde_json::Value)
    requires
        distinct_names(entry_views(entries@)),
    ensures
        json_view(r) == JsonModel::Object(entries_map(entry_views(entries@))),
{
    serde_json::Value::Object(entries.into_iter().collect())
}

} // verus!
