//! JSON documents as `serde_json` parses them, with a mathematical model of
//! what a document holds.
//!
//! What this file says of `serde_json` is believed, not proved: each such
//! item names the function it speaks of.

use vstd::prelude::*;

verus! {

/// `serde_json::Value`, a parsed JSON document. Verus sees nothing inside
/// it; [`json_view`] names what it holds.
#[verifier::external_type_specification]
#[verifier::external_body]
pub struct ExJsonValue(serde_json::Value);

/// `serde_json::Number`, a JSON number as parsed. It is carried through, never
/// looked into.
#[verifier::external_type_specification]
#[verifier::external_body]
pub struct ExJsonNumber(serde_json::Number);

/// `serde_json::Error`, the parser's account of why a text is no JSON.
#[verifier::external_type_specification]
#[verifier::external_body]
pub struct ExJsonError(serde_json::Error);

/// What a JSON document holds.
pub enum JsonView {
    Null,
    Bool(bool),
    Number(serde_json::Number),
    Text(Seq<char>),
    Array(Seq<JsonView>),
    Object(Map<Seq<char>, JsonView>),
}

impl JsonView {
    /// The member stored under `key`, where `self` is an object that has one.
    pub open spec fn member(self, key: Seq<char>) -> Option<JsonView> {
        match self {
            JsonView::Object(members) => if members.contains_key(key) {
                Some(members[key])
            } else {
                None
            },
            _ => None,
        }
    }

    /// The characters of `self`, where it is a string.
    pub open spec fn text(self) -> Option<Seq<char>> {
        match self {
            JsonView::Text(characters) => Some(characters),
            _ => None,
        }
    }

    /// The number that `self` is, where it is one.
    pub open spec fn number(self) -> Option<serde_json::Number> {
        match self {
            JsonView::Number(number) => Some(number),
            _ => None,
        }
    }

    /// The characters of the string stored under `key`, where `self` is an
    /// object that has a string there.
    pub open spec fn text_member(self, key: Seq<char>) -> Option<Seq<char>> {
        match self.member(key) {
            Some(inner) => inner.text(),
            None => None,
        }
    }

    /// The number stored under `key`, where `self` is an object that has a
    /// number there.
    pub open spec fn number_member(self, key: Seq<char>) -> Option<serde_json::Number> {
        match self.member(key) {
            Some(inner) => inner.number(),
            None => None,
        }
    }
}

/// The contents of a parsed document.
pub uninterp spec fn json_view(value: serde_json::Value) -> JsonView;

/// The account that a parser's error gives of itself: the text that
/// `<serde_json::Error as Display>::fmt` writes for it, which is its message
/// and, where it has them, the line and the column.
pub uninterp spec fn parser_account(cause: serde_json::Error) -> Seq<char>;

/// What `serde_json::from_slice` makes of `bytes`: the document it reads, or
/// the account of the error it reports.
pub uninterp spec fn parsed_json(bytes: Seq<u8>) -> Result<JsonView, Seq<char>>;

/// Calls `serde_json::from_slice` for a `serde_json::Value`. The contract
/// claims only that the outcome depends on the bytes alone: the same bytes
/// always give the same document, or always an error with the same account.
#[verifier::external_body]
pub(crate) fn parse_document(bytes: &[u8]) -> (parsed: Result<
    serde_json::Value,
    serde_json::Error,
>)
    ensures
        match parsed {
            Ok(document) => parsed_json(bytes@) == Ok::<JsonView, Seq<char>>(json_view(document)),
            Err(cause) => parsed_json(bytes@) == Err::<JsonView, Seq<char>>(parser_account(cause)),
        },
{
    serde_json::from_slice::<serde_json::Value>(bytes)
}

/// Calls `serde_json::Value::get` with a string index. As its source shows,
/// the call returns the member stored under `key` where `value` is an object
/// that has such a member, and `None` in every other case.
#[verifier::external_body]
pub(crate) fn member_of<'a>(value: &'a serde_json::Value, key: &str) -> (found: Option<
    &'a serde_json::Value,
>)
    ensures
        match found {
            Some(inner) => json_view(*value).member(key@) == Some(json_view(*inner)),
            None => json_view(*value).member(key@).is_none(),
        },
{
    value.get(key)
}

/// `serde_json::Value::as_str` returns the string's characters where the
/// value is a string, and `None` otherwise.
pub assume_specification<'a>[ serde_json::Value::as_str ](
    value: &'a serde_json::Value,
) -> (text: Option<&'a str>)
    ensures
        match text {
            Some(characters) => json_view(*value).text() == Some(characters@),
            None => json_view(*value).text().is_none(),
        },
;

/// `serde_json::Value::as_number` returns the number where the value is one,
/// and `None` otherwise.
pub assume_specification<'a>[ serde_json::Value::as_number ](
    value: &'a serde_json::Value,
) -> (number: Option<&'a serde_json::Number>)
    ensures
        match number {
            Some(inner) => json_view(*value).number() == Some(*inner),
            None => json_view(*value).number().is_none(),
        },
;

/// `Clone::clone` on a `serde_json::Number` returns an equal number.
pub assume_specification[ <serde_json::Number as Clone>::clone ](
    number: &serde_json::Number,
) -> (copy: serde_json::Number)
    ensures
        copy == *number,
;

} // verus!
