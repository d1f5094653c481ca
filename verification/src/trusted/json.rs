use vstd::prelude::*;

verus! {

/// `serde_json::Map`, a JSON object. What it holds is spoken of through
/// [`json_members`].
#[verifier::external_type_specification]
#[verifier::external_body]
#[verifier::reject_recursive_types(K)]
#[verifier::reject_recursive_types(V)]
pub struct ExJsonObject<K, V>(serde_json::Map<K, V>);

/// `serde_json::Value`, any JSON value. It occurs only as what a
/// `serde_json::Map` holds.
#[verifier::external_type_specification]
#[verifier::external_body]
pub struct ExJsonValue(serde_json::Value);

/// What one member of a JSON object holds, as far as this library reads it:
/// a string, an integer that fits in 64 signed bits, or anything else.
pub enum JsonMember {
    Text(Seq<char>),
    Integer(i64),
    Other,
}

/// The members of a JSON object, by name.
pub uninterp spec fn json_members(object: serde_json::Map<String, serde_json::Value>) -> Map<
    Seq<char>,
    JsonMember,
>;

/// The object without members.
pub open spec fn no_members() -> Map<Seq<char>, JsonMember> {
    Map::empty()
}

/// Whether `members` holds the string `text` under `name`.
pub open spec fn holds_text(
    members: Map<Seq<char>, JsonMember>,
    name: Seq<char>,
    text: Seq<char>,
) -> bool {
    members.dom().contains(name) && members[name] == JsonMember::Text(text)
}

/// Whether `members` holds some string under `name`.
pub open spec fn holds_some_text(members: Map<Seq<char>, JsonMember>, name: Seq<char>) -> bool {
    members.dom().contains(name) && members[name] is Text
}

/// Whether `members` holds the integer `number` under `name`.
pub open spec fn holds_integer(
    members: Map<Seq<char>, JsonMember>,
    name: Seq<char>,
    number: i64,
) -> bool {
    members.dom().contains(name) && members[name] == JsonMember::Integer(number)
}

/// Whether `members` holds some integer under `name`.
pub open spec fn holds_some_integer(members: Map<Seq<char>, JsonMember>, name: Seq<char>) -> bool {
    members.dom().contains(name) && members[name] is Integer
}

/// Whether every member is a string or an integer.
pub open spec fn all_plain(members: Map<Seq<char>, JsonMember>) -> bool {
    forall|name: Seq<char>| members.dom().contains(name) ==> !(#[trigger] members[name] is Other)
}

/// `serde_json::Map::new`: an object without members.
#[verifier::external_body]
pub(crate) fn json_object() -> (object: serde_json::Map<String, serde_json::Value>)
    ensures
        json_members(object) == no_members(),
{
    serde_json::Map::new()
}

/// `serde_json::Map::insert` with a `Value::String`: afterwards the object
/// holds `text` under `name`, in place of what it held there, and every
/// other member is as before.
#[verifier::external_body]
pub(crate) fn json_put_text(
    object: &mut serde_json::Map<String, serde_json::Value>,
    name: &str,
    text: &str,
)
    ensures
        json_members(*final(object)) == json_members(*old(object)).insert(
            name@,
            JsonMember::Text(text@),
        ),
{
    object.insert(name.to_string(), serde_json::Value::String(text.to_string()));
}

/// `serde_json::Map::insert` with a `Value::Number` made from an `i64`:
/// afterwards the object holds `number` under `name`, in place of what it
/// held there, and every other member is as before.
#[verifier::external_body]
pub(crate) fn json_put_integer(
    object: &mut serde_json::Map<String, serde_json::Value>,
    name: &str,
    number: i64,
)
    ensures
        json_members(*final(object)) == json_members(*old(object)).insert(
            name@,
            JsonMember::Integer(number),
        ),
{
    object.insert(name.to_string(), serde_json::Value::from(number));
}

/// `serde_json::Map::get` followed by `Value::as_str`: the string under
/// `name`, or `None` where the object has no such member or the member is
/// no string.
#[verifier::external_body]
pub(crate) fn json_text(object: &serde_json::Map<String, serde_json::Value>, name: &str) -> (found:
    Option<String>)
    ensures
        match found {
            Some(text) => holds_text(json_members(*object), name@, text@),
            None => !holds_some_text(json_members(*object), name@),
        },
{
    object.get(name).and_then(|value| value.as_str()).map(|text| text.to_string())
}

/// `serde_json::Map::get` followed by `Value::as_i64`: the integer under
/// `name`, or `None` where the object has no such member or the member is
/// no integer of 64 signed bits.
#[verifier::external_body]
pub(crate) fn json_integer(object: &serde_json::Map<String, serde_json::Value>, name: &str) -> (found:
    Option<i64>)
    ensures
        match found {
            Some(number) => holds_integer(json_members(*object), name@, number),
            None => !holds_some_integer(json_members(*object), name@),
        },
{
    object.get(name).and_then(|value| value.as_i64())
}

} // verus!
