//! JSON objects, written by `serde_json`.

use vstd::prelude::*;

verus! {

/// What a value in a JSON object is.
pub enum JsonView {
    Null,
    Number(int),
    Text(Seq<char>),
    /// Any other value, by the text that is written for it.
    Other(Seq<char>),
}

/// `serde_json`'s map of names and values.
#[verifier::external_type_specification]
#[verifier::external_body]
#[verifier::reject_recursive_types(K)]
#[verifier::reject_recursive_types(V)]
pub struct ExMap<K, V>(serde_json::Map<K, V>);

/// `serde_json`'s value.
#[verifier::external_type_specification]
#[verifier::external_body]
pub struct ExValue(serde_json::Value);

/// What a value of `serde_json` holds: of null, an integer and a string that value, and of
/// every other value the text that is written for it.
pub uninterp spec fn value_view(v: serde_json::Value) -> JsonView;

/// A value in a JSON object.
pub enum JsonValue {
    Null,
    Number(u64),
    Signed(i64),
    Text(String),
    /// A value that comes from elsewhere.
    Given(serde_json::Value),
}

impl View for JsonValue {
    type V = JsonView;

    open spec fn view(&self) -> JsonView {
        match self {
            JsonValue::Null => JsonView::Null,
            JsonValue::Number(n) => JsonView::Number(*n as int),
            JsonValue::Signed(n) => JsonView::Number(*n as int),
            JsonValue::Text(s) => JsonView::Text(s@),
            JsonValue::Given(v) => value_view(*v),
        }
    }
}

/// `serde_json::Value::clone`: the copy holds what the value holds.
#[verifier::external_body]
pub(crate) fn copy_value(v: &serde_json::Value) -> (r: serde_json::Value)
    ensures
        value_view(r) == value_view(*v),
{
    v.clone()
}

/// What an optional value holds.
pub open spec fn opt_value(o: Option<serde_json::Value>) -> Option<JsonView> {
    match o {
        None => None,
        Some(v) => Some(value_view(v)),
    }
}

/// A copy of an optional value.
pub fn copy_opt(o: &Option<serde_json::Value>) -> (r: Option<serde_json::Value>)
    ensures
        opt_value(r) == opt_value(*o),
{
    match o {
        Some(v) => Some(copy_value(v)),
        None => None,
    }
}

/// The names and values that a map holds.
pub uninterp spec fn entries(m: serde_json::Map<String, serde_json::Value>) -> Map<
    Seq<char>,
    JsonView,
>;

/// The text that `serde_json` writes for an object with these names and values.
pub uninterp spec fn object_text(fields: Map<Seq<char>, JsonView>) -> Seq<char>;

/// No names and values.
pub open spec fn no_fields() -> Map<Seq<char>, JsonView> {
    Map::empty()
}

/// `serde_json::Map::new`: a map that holds nothing.
#[verifier::external_body]
fn empty_map() -> (r: serde_json::Map<String, serde_json::Value>)
    ensures
        entries(r) == no_fields(),
{
    serde_json::Map::new()
}

/// `serde_json::Map::insert`: the name has the given value afterwards, and every other
/// name what it had.
#[verifier::external_body]
fn set_entry(
    map: &mut serde_json::Map<String, serde_json::Value>,
    name: &str,
    value: &JsonValue,
)
    ensures
        entries(*final(map)) == entries(*old(map)).insert(name@, value@),
{
    let converted = match value {
        JsonValue::Null => serde_json::Value::Null,
        JsonValue::Number(n) => serde_json::Value::from(*n),
        JsonValue::Signed(n) => serde_json::Value::from(*n),
        JsonValue::Text(s) => serde_json::Value::from(s.as_str()),
        JsonValue::Given(v) => v.clone(),
    };
    map.insert(name.to_string(), converted);
}

/// `to_string` of a `serde_json::Value::Object`: the text is determined by the names
/// and values that the map holds. The map keeps its names sorted, as it does without
/// `serde_json`'s feature `preserve_order`, so that the order in which they were set does
/// not matter.
#[verifier::external_body]
fn write_map(map: serde_json::Map<String, serde_json::Value>) -> (r: String)
    ensures
        r@ == object_text(entries(map)),
{
    serde_json::Value::Object(map).to_string()
}

/// A JSON object in the making.
pub struct JsonObject {
    map: serde_json::Map<String, serde_json::Value>,
}

impl JsonObject {
    /// The names and values that the object has.
    pub closed spec fn fields(self) -> Map<Seq<char>, JsonView> {
        entries(self.map)
    }

    /// An object without names.
    pub fn new() -> (r: JsonObject)
        ensures
            r.fields() == no_fields(),
    {
        JsonObject { map: empty_map() }
    }

    /// This object with one more name. A name that it had gets the new value.
    pub fn with(self, name: &str, value: JsonValue) -> (r: JsonObject)
        ensures
            r.fields() == self.fields().insert(name@, value@),
    {
        let mut map = self.map;
        set_entry(&mut map, name, &value);
        JsonObject { map }
    }

    /// The text of the object.
    pub fn text(self) -> (r: String)
        ensures
            r@ == object_text(self.fields()),
    {
        write_map(self.map)
    }
}

} // verus!
