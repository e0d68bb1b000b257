//! The boundary to `serde_json`.
//!
//! JSON text is read and written by `serde_json` alone. A JSON value stays a
//! `serde_json::Value`; what it holds is described by [`JsonView`], and every
//! call into the crate is one small function here whose contract is taken on
//! trust from the crate's documentation and source.

use vstd::prelude::*;

verus! {

/// What a JSON value holds.
pub enum JsonView {
    Null,
    Bool(bool),
    /// A number, by the literal that stands for it in JSON text.
    Number(Seq<char>),
    Text(Seq<char>),
    List(Seq<JsonView>),
    Object(Map<Seq<char>, JsonView>),
}

impl JsonView {
    /// The member under `key`, or `Null` where this is no object or the
    /// object has no such member.
    pub open spec fn at_key(self, key: Seq<char>) -> JsonView {
        match self {
            JsonView::Object(members) => if members.contains_key(key) {
                members[key]
            } else {
                JsonView::Null
            },
            _ => JsonView::Null,
        }
    }

    /// The element at `index`, or `Null` where this is no array or the index
    /// is past its end.
    pub open spec fn at_index(self, index: int) -> JsonView {
        match self {
            JsonView::List(items) => if 0 <= index < items.len() {
                items[index]
            } else {
                JsonView::Null
            },
            _ => JsonView::Null,
        }
    }

    /// The text of a JSON string; nothing for any other value.
    pub open spec fn as_text(self) -> Option<Seq<char>> {
        match self {
            JsonView::Text(text) => Some(text),
            _ => None,
        }
    }
}

/// `serde_json::Value`, carried through verified code as an opaque value.
#[verifier::external_type_specification]
#[verifier::external_body]
pub struct ExValue(serde_json::Value);

/// `serde_json::Error`, carried through verified code as an opaque value.
#[verifier::external_type_specification]
#[verifier::external_body]
pub struct ExError(serde_json::Error);

/// What a `serde_json::Value` holds.
pub uninterp spec fn json_view(value: serde_json::Value) -> JsonView;

/// What `serde_json::from_str` reads out of a text: the value that the text
/// denotes, or nothing where the parser rejects the text.
pub uninterp spec fn json_parse(text: Seq<char>) -> Option<JsonView>;

/// What `serde_json::to_string_pretty` writes for a value: its indented JSON
/// text, or nothing where the serializer reports an error.
pub uninterp spec fn json_pretty(doc: JsonView) -> Option<Seq<char>>;

/// The members that a list of key and value pairs gives an object, the pairs
/// entered in order.
pub open spec fn members_of(fields: Seq<(String, serde_json::Value)>) -> Map<Seq<char>, JsonView>
    decreases fields.len(),
{
    if fields.len() == 0 {
        Map::empty()
    } else {
        members_of(fields.drop_last()).insert(fields.last().0@, json_view(fields.last().1))
    }
}

/// No key occurs twice among the pairs.
pub open spec fn distinct_keys(fields: Seq<(String, serde_json::Value)>) -> bool {
    forall|i: int, j: int|
        0 <= i < j < fields.len() ==> (#[trigger] fields[i]).0@ != (#[trigger] fields[j]).0@
}

/// What each value of a list holds, in order.
pub open spec fn views_of(items: Seq<serde_json::Value>) -> Seq<JsonView> {
    items.map_values(|item: serde_json::Value| json_view(item))
}

/// `serde_json::from_str` at type `Value`. Trusted: the parser's verdict and
/// the value it builds depend on the text alone, so both are named by
/// [`json_parse`].
#[verifier::external_body]
pub(crate) fn parse(text: &str) -> (parsed: Result<serde_json::Value, serde_json::Error>)
    ensures
        match parsed {
            Ok(value) => json_parse(text@) == Some(json_view(value)),
            Err(_) => json_parse(text@) is None,
        },
{
    serde_json::from_str::<serde_json::Value>(text)
}

/// `value[key]`, the `Index` impl of `serde_json::Value` for a string key.
/// Trusted: it hands out the member under the key, and a null value where
/// the value is no object or has no such member; it never panics.
#[verifier::external_body]
pub(crate) fn at_key<'a>(value: &'a serde_json::Value, key: &str) -> (member: &'a serde_json::Value)
    ensures
        json_view(*member) == json_view(*value).at_key(key@),
{
    &value[key]
}

/// `value[index]`, the `Index` impl of `serde_json::Value` for a position.
/// Trusted: it hands out the element at the position, and a null value where
/// the value is no array or is too short; it never panics.
#[verifier::external_body]
pub(crate) fn at_index<'a>(value: &'a serde_json::Value, index: usize) -> (element: &'a serde_json::Value)
    ensures
        json_view(*element) == json_view(*value).at_index(index as int),
{
    &value[index]
}

/// `serde_json::Value::as_str`. Trusted: the text of a JSON string, nothing
/// for any other value.
#[verifier::external_body]
pub(crate) fn as_text<'a>(value: &'a serde_json::Value) -> (found: Option<&'a str>)
    ensures
        match found {
            Some(t) => json_view(*value).as_text() == Some(t@),
            None => json_view(*value).as_text() is None,
        },
{
    value.as_str()
}

/// `serde_json::Map::len` on the members that `serde_json::Value::as_object`
/// hands out. Trusted: an object has finitely many members and this is their
/// number; any other value has no members to count.
#[verifier::external_body]
pub(crate) fn member_count(value: &serde_json::Value) -> (count: Option<usize>)
    ensures
        match count {
            Some(n) => json_view(*value) matches JsonView::Object(members)
                && members.dom().finite() && members.dom().len() == n,
            None => !(json_view(*value) is Object),
        },
{
    value.as_object().map(serde_json::Map::len)
}

/// The variant `serde_json::Value::Null`.
#[verifier::external_body]
pub(crate) fn null() -> (value: serde_json::Value)
    ensures
        json_view(value) == JsonView::Null,
{
    serde_json::Value::Null
}

/// The variant `serde_json::Value::String`, holding a copy of `content`.
#[verifier::external_body]
pub(crate) fn text(content: &str) -> (value: serde_json::Value)
    ensures
        json_view(value) == JsonView::Text(content@),
{
    serde_json::Value::String(content.to_owned())
}

/// The variant `serde_json::Value::Array`, holding `items` in their order.
#[verifier::external_body]
pub(crate) fn list(items: Vec<serde_json::Value>) -> (value: serde_json::Value)
    ensures
        json_view(value) == JsonView::List(views_of(items@)),
{
    serde_json::Value::Array(items)
}

/// The variant `serde_json::Value::Object` over a `serde_json::Map` collected
/// from `fields`. Trusted: with no key given twice, the object has exactly
/// the given members. Which of two values under one key would stay is left
/// open by the map's documentation, so such a list is not admitted.
#[verifier::external_body]
pub(crate) fn object(fields: Vec<(String, serde_json::Value)>) -> (value: serde_json::Value)
    requires
        distinct_keys(fields@),
    ensures
        json_view(value) == JsonView::Object(members_of(fields@)),
{
    serde_json::Value::Object(fields.into_iter().collect())
}

/// `serde_json::to_string_pretty` on a `Value`. Trusted: what it writes, or
/// that it fails, depends on what the value holds alone, so both are named by
/// [`json_pretty`]. This leans on the crate's default build, in which an
/// object keeps its members sorted by key.
#[verifier::external_body]
pub(crate) fn pretty(value: &serde_json::Value) -> (written: Result<String, serde_json::Error>)
    ensures
        match written {
            Ok(text) => json_pretty(json_view(*value)) == Some(text@),
            Err(_) => json_pretty(json_view(*value)) is None,
        },
{
    serde_json::to_string_pretty(value)
}

} // verus!
