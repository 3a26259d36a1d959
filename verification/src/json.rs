//! JSON objects as the providers exchange them.
//!
//! A JSON value is known by its compact text. Objects are written with their members in the order
//! of their names, so that the text of an object is a function of its members.
use vstd::prelude::*;

verus! {

/// `serde_json::Value`.
#[verifier::external_type_specification]
#[verifier::external_body]
pub struct ExValue(serde_json::Value);

/// `serde_json::Map`.
#[verifier::external_type_specification]
#[verifier::external_body]
#[verifier::reject_recursive_types(K)]
#[verifier::reject_recursive_types(V)]
pub struct ExMap<K, V>(serde_json::Map<K, V>);

/// The compact text of a value.
pub uninterp spec fn text_of(v: serde_json::Value) -> Seq<char>;

/// The members of an object: the compact text of each value under its name.
pub uninterp spec fn members_of(o: serde_json::Map<String, serde_json::Value>) -> Map<
    Seq<char>,
    Seq<char>,
>;

/// The compact text of a string.
pub uninterp spec fn quoted(s: Seq<char>) -> Seq<char>;

/// The compact text of an object with the given members.
pub uninterp spec fn object_text(members: Map<Seq<char>, Seq<char>>) -> Seq<char>;

/// The compact text of the value that a text parses to; none where it is not JSON.
pub uninterp spec fn parsed(text: Seq<char>) -> Option<Seq<char>>;

/// The string under a name in the object with the given compact text; none where the value is no
/// object, or has no string there.
pub uninterp spec fn string_member(text: Seq<char>, name: Seq<char>) -> Option<Seq<char>>;

/// The boolean under a name in the object with the given compact text; none where the value is no
/// object, or has no boolean there.
pub uninterp spec fn bool_member(text: Seq<char>, name: Seq<char>) -> Option<bool>;

/// No members.
pub open spec fn no_members() -> Map<Seq<char>, Seq<char>> {
    Map::empty()
}

/// `serde_json::Map::new`: an object without members.
#[verifier::external_body]
pub(crate) fn object() -> (o: serde_json::Map<String, serde_json::Value>)
    ensures
        members_of(o) == no_members(),
{
    serde_json::Map::new()
}

/// `serde_json::Map::insert`: sets a member.
#[verifier::external_body]
pub(crate) fn set(
    o: &mut serde_json::Map<String, serde_json::Value>,
    name: &str,
    value: serde_json::Value,
)
    ensures
        members_of(*final(o)) == members_of(*old(o)).insert(name@, text_of(value)),
{
    o.insert(name.to_owned(), value);
}

/// `serde_json::Value::String`: a string.
#[verifier::external_body]
pub(crate) fn string(s: &str) -> (v: serde_json::Value)
    ensures
        text_of(v) == quoted(s@),
{
    serde_json::Value::String(s.to_owned())
}

/// `serde_json::Value::Bool`: `true` or `false`.
#[verifier::external_body]
pub(crate) fn boolean(b: bool) -> (v: serde_json::Value)
    ensures
        text_of(v) == if b {
            "true"@
        } else {
            "false"@
        },
{
    serde_json::Value::Bool(b)
}

/// `serde_json::Value::from` on an unsigned number, which is written in decimal.
#[verifier::external_body]
pub(crate) fn number(n: u32) -> (v: serde_json::Value)
    ensures
        text_of(v) == crate::text::decimal(n as nat),
{
    serde_json::Value::from(n)
}

/// `serde_json::Value::Null`.
#[verifier::external_body]
pub(crate) fn null() -> (v: serde_json::Value)
    ensures
        text_of(v) == "null"@,
{
    serde_json::Value::Null
}

/// `serde_json::Value::Object`: an object.
#[verifier::external_body]
pub(crate) fn nested(o: serde_json::Map<String, serde_json::Value>) -> (v: serde_json::Value)
    ensures
        text_of(v) == object_text(members_of(o)),
{
    serde_json::Value::Object(o)
}

/// `serde_json::Value::to_string`: the compact text.
#[verifier::external_body]
pub(crate) fn write(v: &serde_json::Value) -> (s: String)
    ensures
        s@ == text_of(*v),
{
    v.to_string()
}

/// A digit.
pub open spec fn is_digit(c: char) -> bool {
    '0' <= c <= '9'
}

/// A number between 0 and 1 with one or two decimal places, the last of them not zero.
pub open spec fn is_short_fraction(text: Seq<char>) -> bool {
    &&& text.len() == 3 || text.len() == 4
    &&& text[0] == '0' && text[1] == '.'
    &&& is_digit(text[2])
    &&& is_digit(text.last()) && text.last() != '0'
}

/// `serde_json::from_str` into a `Value`, without its error.
///
/// A short fraction is read as the nearest 64-bit number, which is written as the shortest decimal
/// that reads back as it, so its text is the one that was read.
#[verifier::external_body]
pub(crate) fn parse(text: &str) -> (v: Option<serde_json::Value>)
    ensures
        v is Some <==> parsed(text@) is Some,
        v matches Some(x) ==> parsed(text@) == Some(text_of(x)),
        is_short_fraction(text@) ==> v is Some && text_of(v->0) == text@,
{
    serde_json::from_str::<serde_json::Value>(text).ok()
}

/// `serde_json::Value::get` and `as_str`: the string under a name.
#[verifier::external_body]
pub(crate) fn get_string(v: &serde_json::Value, name: &str) -> (s: Option<String>)
    ensures
        s is Some <==> string_member(text_of(*v), name@) is Some,
        s matches Some(x) ==> string_member(text_of(*v), name@) == Some(x@),
{
    v.get(name)?.as_str().map(str::to_owned)
}

/// `serde_json::Value::get` and `as_bool`: the boolean under a name.
#[verifier::external_body]
pub(crate) fn get_bool(v: &serde_json::Value, name: &str) -> (b: Option<bool>)
    ensures
        b == bool_member(text_of(*v), name@),
{
    v.get(name)?.as_bool()
}

/// The number that a short fraction denotes.
pub(crate) fn fraction(text: &str) -> (v: serde_json::Value)
    requires
        is_short_fraction(text@),
    ensures
        text_of(v) == text@,
{
    match parse(text) {
        Some(v) => v,
        None => null(),
    }
}

/// Writes an object.
pub(crate) fn write_object(o: serde_json::Map<String, serde_json::Value>) -> (s: String)
    ensures
        s@ == object_text(members_of(o)),
{
    let v = nested(o);
    write(&v)
}

/// The string, or nothing where there is none.
pub open spec fn or_empty(s: Option<Seq<char>>) -> Seq<char> {
    match s {
        Some(x) => x,
        None => Seq::empty(),
    }
}

/// The string under a name, or nothing.
pub(crate) fn get_string_or_empty(v: &serde_json::Value, name: &str) -> (s: String)
    ensures
        s@ == or_empty(string_member(text_of(*v), name@)),
{
    match get_string(v, name) {
        Some(s) => s,
        None => String::new(),
    }
}

} // verus!
