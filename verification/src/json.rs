//! What this crate assumes of `serde_json`.
//!
//! JSON documents stay `serde_json::Value`s. The functions below are the only
//! way the rest of the crate looks into one, and each states which call of
//! `serde_json` it stands for. Their contracts are believed, not proved.

use vstd::prelude::*;

verus! {

#[verifier::external_type_specification]
#[verifier::external_body]
pub struct ExJsonValue(serde_json::Value);

#[verifier::external_type_specification]
#[verifier::external_body]
pub struct ExJsonError(serde_json::Error);

/// The outcome of `serde_json::from_slice::<serde_json::Value>` on `bytes`.
pub uninterp spec fn json_document(bytes: Seq<u8>) -> Result<serde_json::Value, serde_json::Error>;

/// The outcome of `serde_json::Value::get` with the string index `key`:
/// the member of that name where `value` is an object that has one.
pub uninterp spec fn json_member(value: serde_json::Value, key: Seq<char>) -> Option<
    serde_json::Value,
>;

/// The outcome of `serde_json::Value::as_str`: the text where `value` is a string.
pub uninterp spec fn json_string(value: serde_json::Value) -> Option<Seq<char>>;

/// The outcome of `serde_json::Value::is_null`.
pub uninterp spec fn json_null(value: serde_json::Value) -> bool;

/// What `serde_json::Error` shows through `Display`.
pub uninterp spec fn json_error_text(error: serde_json::Error) -> Seq<char>;

/// The hexadecimal digit `d`, in lower case.
pub open spec fn hex_digit(d: nat) -> char {
    if d == 0 {
        '0'
    } else if d == 1 {
        '1'
    } else if d == 2 {
        '2'
    } else if d == 3 {
        '3'
    } else if d == 4 {
        '4'
    } else if d == 5 {
        '5'
    } else if d == 6 {
        '6'
    } else if d == 7 {
        '7'
    } else if d == 8 {
        '8'
    } else if d == 9 {
        '9'
    } else if d == 10 {
        'a'
    } else if d == 11 {
        'b'
    } else if d == 12 {
        'c'
    } else if d == 13 {
        'd'
    } else if d == 14 {
        'e'
    } else {
        'f'
    }
}

/// A character as `serde_json` writes it inside a string literal: the quote,
/// the backslash and the control characters below U+0020 are escaped, the
/// five that have a short form by it and the others as `\u00` and two
/// hexadecimal digits. Every other character stands for itself.
pub open spec fn json_escaped(c: char) -> Seq<char> {
    if c == '"' {
        seq!['\\', '"']
    } else if c == '\\' {
        seq!['\\', '\\']
    } else if c == '\u{8}' {
        seq!['\\', 'b']
    } else if c == '\t' {
        seq!['\\', 't']
    } else if c == '\n' {
        seq!['\\', 'n']
    } else if c == '\u{c}' {
        seq!['\\', 'f']
    } else if c == '\r' {
        seq!['\\', 'r']
    } else if (c as u32) < 0x20 {
        seq!['\\', 'u', '0', '0', hex_digit((c as u32 / 16) as nat), hex_digit((c as u32 % 16) as nat)]
    } else {
        seq![c]
    }
}

/// The characters of `text`, each as [`json_escaped`] writes it.
pub open spec fn json_escaped_text(text: Seq<char>) -> Seq<char>
    decreases text.len(),
{
    if text.len() == 0 {
        Seq::empty()
    } else {
        json_escaped(text[0]) + json_escaped_text(text.drop_first())
    }
}

/// The text that `serde_json::to_string` gives for a string: the string as a
/// JSON string literal, between quotes and with its characters escaped.
pub open spec fn json_quoted(text: Seq<char>) -> Seq<char> {
    seq!['"'] + json_escaped_text(text) + seq!['"']
}

/// Does the character stand for itself inside a string literal?
pub open spec fn is_plain(c: char) -> bool {
    c != '"' && c != '\\' && (c as u32) >= 0x20
}

/// A text without a quote, a backslash or a control character is quoted as
/// it is.
pub proof fn plain_text_is_quoted_as_it_is(text: Seq<char>)
    requires
        forall|i: int| 0 <= i < text.len() ==> is_plain(#[trigger] text[i]),
    ensures
        json_escaped_text(text) == text,
        json_quoted(text) == seq!['"'] + text + seq!['"'],
    decreases text.len(),
{
    if text.len() > 0 {
        let rest = text.drop_first();
        assert(is_plain(text[0]));
        assert forall|i: int| 0 <= i < rest.len() implies is_plain(#[trigger] rest[i]) by {
            assert(rest[i] == text[i + 1]);
        }
        plain_text_is_quoted_as_it_is(rest);
        assert(seq![text[0]] + rest =~= text);
    }
}

/// The text that `serde_json::to_string` gives for a document.
pub uninterp spec fn json_text(value: serde_json::Value) -> Seq<char>;

/// `serde_json::from_slice` at `serde_json::Value`. Claimed: the outcome
/// depends on the bytes alone.
#[verifier::external_body]
pub(crate) fn parse_document(bytes: &[u8]) -> (r: Result<serde_json::Value, serde_json::Error>)
    ensures
        r == json_document(bytes@),
{
    serde_json::from_slice::<serde_json::Value>(bytes)
}

/// `serde_json::Value::get` with a `&str` index. Claimed: the outcome
/// depends on the value and the key alone.
#[verifier::external_body]
pub(crate) fn member<'a>(value: &'a serde_json::Value, key: &str) -> (r: Option<
    &'a serde_json::Value,
>)
    ensures
        r is Some <==> json_member(*value, key@) is Some,
        r is Some ==> *r->0 == json_member(*value, key@)->0,
{
    value.get(key)
}

/// `serde_json::Value::as_str`. Claimed: the outcome depends on the value alone.
pub assume_specification<'a>[ serde_json::Value::as_str ](value: &'a serde_json::Value) -> (r:
    Option<&'a str>)
    ensures
        r is Some <==> json_string(*value) is Some,
        r is Some ==> r->0@ == json_string(*value)->0,
;

/// `serde_json::Value::is_null`. Claimed: the outcome depends on the value alone.
pub assume_specification[ serde_json::Value::is_null ](value: &serde_json::Value) -> (r: bool)
    ensures
        r == json_null(*value),
;

/// `Clone` of `serde_json::Value`. Claimed: the copy is the same document.
pub assume_specification[ <serde_json::Value as Clone>::clone ](value: &serde_json::Value) -> (r:
    serde_json::Value)
    ensures
        r == *value,
;

/// `to_string` of a `serde_json::Error`, that is its `Display`. Claimed: the
/// text depends on the error alone.
#[verifier::external_body]
pub(crate) fn error_text(error: &serde_json::Error) -> (r: String)
    ensures
        r@ == json_error_text(*error),
{
    error.to_string()
}

/// `serde_json::to_string` at `str`. Claimed: the text is the string between
/// quotes, with each character as [`json_escaped`] says. The call cannot
/// fail: it fails where a `Serialize` impl fails or a map has a key that is
/// no string, and where the writer fails, which here is a `Vec`.
#[verifier::external_body]
pub(crate) fn quoted(text: &str) -> (r: String)
    ensures
        r@ == json_quoted(text@),
{
    serde_json::to_string(text).unwrap_or_default()
}

/// `serde_json::to_string` at `serde_json::Value`. Claimed: the text depends
/// on the document alone. The call cannot fail, for the reasons given at
/// [`quoted`]: the keys of a document's objects are strings.
#[verifier::external_body]
pub(crate) fn document_text(value: &serde_json::Value) -> (r: String)
    ensures
        r@ == json_text(*value),
{
    serde_json::to_string(value).unwrap_or_default()
}

} // verus!
