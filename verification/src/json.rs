//! JSON objects, as `serde_json` builds and renders them.
use vstd::prelude::*;

verus! {

/// What a JSON value stands for, as far as the player writes any.
pub ghost enum JsonValue {
    Text(Seq<char>),
    Number(int),
    List(Seq<Seq<char>>),
    Object(Map<Seq<char>, JsonValue>),
}

/// The key-value table of a JSON object, `serde_json::Map`.
#[verifier::external_type_specification]
#[verifier::external_body]
#[verifier::reject_recursive_types(K)]
#[verifier::reject_recursive_types(V)]
pub struct ExJsonMap<K, V>(serde_json::Map<K, V>);

/// A JSON value of any kind, `serde_json::Value`.
#[verifier::external_type_specification]
#[verifier::external_body]
pub struct ExJsonValue(serde_json::Value);

/// The entries that a JSON object holds.
pub uninterp spec fn object_entries(
    object: serde_json::Map<String, serde_json::Value>,
) -> Map<Seq<char>, JsonValue>;

/// The text of the JSON object with the given entries, in the compact form that `Display` of
/// `serde_json::Value` writes. How strings are escaped and in which order keys come is left to
/// that function.
pub uninterp spec fn object_text(entries: Map<Seq<char>, JsonValue>) -> Seq<char>;

/// `serde_json::Map::new`: an object without entries.
#[verifier::external_body]
pub(crate) fn new_object() -> (object: serde_json::Map<String, serde_json::Value>)
    ensures
        (object_entries(object) == Map::<Seq<char>, JsonValue>::empty()),
{
    serde_json::Map::new()
}

/// `serde_json::Map::insert` of a string: the key now stands for that string, whatever it stood
/// for before, and no other key is touched.
#[verifier::external_body]
pub(crate) fn put_text(
    object: &mut serde_json::Map<String, serde_json::Value>,
    key: &str,
    value: &str,
)
    ensures
        object_entries(*final(object)) == object_entries(*old(object)).insert(
            key@,
            JsonValue::Text(value@),
        ),
{
    object.insert(key.to_owned(), serde_json::Value::from(value));
}

/// `serde_json::Map::insert` of an integer: the key now stands for that number, whatever it
/// stood for before, and no other key is touched.
#[verifier::external_body]
pub(crate) fn put_number(
    object: &mut serde_json::Map<String, serde_json::Value>,
    key: &str,
    value: i64,
)
    ensures
        object_entries(*final(object)) == object_entries(*old(object)).insert(
            key@,
            JsonValue::Number(value as int),
        ),
{
    object.insert(key.to_owned(), serde_json::Value::from(value));
}

/// `serde_json::Map::insert` of an array of strings: the key now stands for that list, whatever
/// it stood for before, and no other key is touched.
#[verifier::external_body]
pub(crate) fn put_list(
    object: &mut serde_json::Map<String, serde_json::Value>,
    key: &str,
    values: &Vec<String>,
)
    ensures
        object_entries(*final(object)) == object_entries(*old(object)).insert(
            key@,
            JsonValue::List(values@.map_values(|value: String| value@)),
        ),
{
    object.insert(key.to_owned(), serde_json::Value::from(values.as_slice()));
}

/// `serde_json::Map::insert` of another object: the key now stands for that object, whatever it
/// stood for before, and no other key is touched.
#[verifier::external_body]
pub(crate) fn put_object(
    object: &mut serde_json::Map<String, serde_json::Value>,
    key: &str,
    value: serde_json::Map<String, serde_json::Value>,
)
    ensures
        object_entries(*final(object)) == object_entries(*old(object)).insert(
            key@,
            JsonValue::Object(object_entries(value)),
        ),
{
    object.insert(key.to_owned(), serde_json::Value::from(value));
}

/// `serde_json::Value::to_string` on an object: its text, which depends on its entries alone.
#[verifier::external_body]
pub(crate) fn render(object: serde_json::Map<String, serde_json::Value>) -> (text: String)
    ensures
        text@ == object_text(object_entries(object)),
{
    serde_json::Value::from(object).to_string()
}

} // verus!
