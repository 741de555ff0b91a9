//! JSON text, read and written by the `serde_json` crate.
//!
//! Nothing here is proved: the contracts say what the crate's source and
//! documentation show.

use vstd::prelude::*;

verus! {

/// A JSON value as `serde_json` holds it.
#[verifier::external_type_specification]
#[verifier::external_body]
pub struct ExJsonValue(serde_json::Value);

/// A JSON object as `serde_json` holds it.
#[verifier::external_type_specification]
#[verifier::external_body]
#[verifier::reject_recursive_types(K)]
#[verifier::reject_recursive_types(V)]
pub struct ExJsonMap<K, V>(serde_json::Map<K, V>);

/// The failure of reading or writing JSON text.
#[verifier::external_type_specification]
#[verifier::external_body]
pub struct ExJsonError(serde_json::Error);

/// The members of an object that are strings, by name.
pub uninterp spec fn json_members(object: serde_json::Map<String, serde_json::Value>) -> Map<
    Seq<char>,
    Seq<char>,
>;

/// The string members of the object that a text holds, or `None` where
/// `serde_json` does not read the text as a JSON object.
pub uninterp spec fn json_text_members(text: Seq<char>) -> Option<Map<Seq<char>, Seq<char>>>;

/// The JSON text of the object with two string members, in this order.
pub uninterp spec fn json_pair_text(
    first_name: Seq<char>,
    first: Seq<char>,
    second_name: Seq<char>,
    second: Seq<char>,
) -> Seq<char>;

/// `serde_json::from_str` for a `serde_json::Map<String, serde_json::Value>`.
/// The contract claims that the outcome depends on the text alone: the object
/// that the text holds, or the parser's error where the text is not JSON or
/// the JSON is no object. Every name of the object is read alike, and of a
/// name that stands twice the last member counts. The members are read as
/// `serde_json::Value` reads them.
#[verifier::external_body]
pub(crate) fn parse_json_object(text: &str) -> (res: Result<
    serde_json::Map<String, serde_json::Value>,
    serde_json::Error,
>)
    ensures
        match res {
            Ok(object) => json_text_members(text@) == Some(json_members(object)),
            Err(_) => json_text_members(text@) is None,
        },
{
    serde_json::from_str::<serde_json::Map<String, serde_json::Value>>(text)
}

/// `serde_json::Map::get` with a name, then `serde_json::Value::as_str`. The
/// contract claims that the result is the member of that name where the
/// object has it and it is a string, and `None` else.
#[verifier::external_body]
pub(crate) fn string_member(object: &serde_json::Map<String, serde_json::Value>, name: &str) -> (res:
    Option<String>)
    ensures
        match res {
            Some(text) => json_members(*object).contains_pair(name@, text@),
            None => !json_members(*object).dom().contains(name@),
        },
{
    Some(object.get(name)?.as_str()?.to_owned())
}

/// `serde_json::to_string` of the object that `serde_json::Map::insert` makes
/// of the two members, in this order. The contract claims three things.
/// Writing cannot fail: by its documentation `to_string` fails only on a map
/// whose keys are not strings or on a value that refuses to be written, and
/// this object holds neither. The text depends on the four arguments alone.
/// And `serde_json::from_str`, reading an object as `parse_json_object` does,
/// reads the two members back from it, the second in place of the first where
/// the names are equal.
#[verifier::external_body]
pub(crate) fn pair_text(first_name: &str, first: &str, second_name: &str, second: &str) -> (res:
    Result<String, serde_json::Error>)
    ensures
        res is Ok,
        res matches Ok(text) ==> text@ == json_pair_text(first_name@, first@, second_name@, second@),
        res matches Ok(text) ==> json_text_members(text@) == Some(
            Map::<Seq<char>, Seq<char>>::empty().insert(first_name@, first@).insert(
                second_name@,
                second@,
            ),
        ),
{
    let mut object = serde_json::Map::new();
    object.insert(first_name.to_owned(), serde_json::Value::String(first.to_owned()));
    object.insert(second_name.to_owned(), serde_json::Value::String(second.to_owned()));
    serde_json::to_string(&serde_json::Value::Object(object))
}

} // verus!
