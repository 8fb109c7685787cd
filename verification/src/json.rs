use vstd::prelude::*;

verus! {

/// `serde_json::Value`, the tree of a parsed JSON document. Nothing inside it
/// is visible here; it is read through the functions of this module.
#[verifier::external_type_specification]
#[verifier::external_body]
pub struct ExValue(serde_json::Value);

/// `serde_json::Error`, what serde_json reports when it cannot parse or write.
#[verifier::external_type_specification]
#[verifier::external_body]
pub struct ExError(serde_json::Error);

/// The document that serde_json reads from a JSON text, where the text is one
/// whole JSON value.
pub uninterp spec fn json_document(text: Seq<u8>) -> Option<serde_json::Value>;

/// The member that a JSON object holds under a key. `None` for a value that is
/// no object, and for an object without that key.
pub uninterp spec fn json_member(value: serde_json::Value, key: Seq<char>) -> Option<
    serde_json::Value,
>;

/// The characters of a JSON string. `None` for a value that is no string.
pub uninterp spec fn json_text(value: serde_json::Value) -> Option<Seq<char>>;

/// Whether a JSON value is `null`.
pub uninterp spec fn json_is_null(value: serde_json::Value) -> bool;

/// Whether a character stands in a JSON string literal as itself: every
/// character but the quote, the backslash and the control characters below
/// the space.
pub open spec fn is_plain(c: char) -> bool {
    c != '"' && c != '\\' && (c as u32) >= 0x20
}

/// What stands in a JSON string literal for one character: the character
/// itself where it is plain; a backslash and one letter for the quote, the
/// backslash, backspace, tab, line feed, form feed and carriage return; and
/// for any other control character `\u00` and its two hexadecimal digits, in
/// lower case.
pub open spec fn escape_of(c: char) -> Seq<char> {
    if c == '"' {
        seq!['\\', '"']
    } else if c == '\\' {
        seq!['\\', '\\']
    } else if c == '\u{8}' {
        seq!['\\', 'b']
    } else if c == '\t' {
        seq!['\\', 't']
    } else if c == '\n' {
        seq!['\\', 'n']
    } else if c == '\u{c}' {
        seq!['\\', 'f']
    } else if c == '\r' {
        seq!['\\', 'r']
    } else if (c as u32) < 0x20 {
        seq![
            '\\',
            'u',
            '0',
            '0',
            hex_digit((c as u32) / 16),
            hex_digit((c as u32) % 16),
        ]
    } else {
        seq![c]
    }
}

/// The hexadecimal digit of a number below sixteen, in lower case.
pub open spec fn hex_digit(n: u32) -> char {
    if n == 0 {
        '0'
    } else if n == 1 {
        '1'
    } else if n == 2 {
        '2'
    } else if n == 3 {
        '3'
    } else if n == 4 {
        '4'
    } else if n == 5 {
        '5'
    } else if n == 6 {
        '6'
    } else if n == 7 {
        '7'
    } else if n == 8 {
        '8'
    } else if n == 9 {
        '9'
    } else if n == 10 {
        'a'
    } else if n == 11 {
        'b'
    } else if n == 12 {
        'c'
    } else if n == 13 {
        'd'
    } else if n == 14 {
        'e'
    } else {
        'f'
    }
}

/// The characters of a string as they stand between the quotes of a JSON
/// string literal: each in its turn, plain or escaped.
pub open spec fn json_escaped(text: Seq<char>) -> Seq<char>
    decreases text.len(),
{
    if text.len() == 0 {
        Seq::empty()
    } else {
        escape_of(text[0]) + json_escaped(text.drop_first())
    }
}

/// The JSON string literal of a string: a quote, the characters plain or
/// escaped, a quote.
pub open spec fn json_quoted(text: Seq<char>) -> Seq<char> {
    seq!['"'] + json_escaped(text) + seq!['"']
}

/// Calls `serde_json::from_slice` for a `Value`. Not proved: that the outcome
/// depends on the bytes alone, which is what gives `json_document` its meaning.
#[verifier::external_body]
pub(crate) fn parse_document(text: &[u8]) -> (r: Result<serde_json::Value, serde_json::Error>)
    ensures
        match r {
            Ok(document) => json_document(text@) == Some(document),
            Err(_) => json_document(text@) is None,
        },
{
    serde_json::from_slice::<serde_json::Value>(text)
}

/// Calls `serde_json::Value::get` with a string key. Not proved: that it hands
/// out the member under that key, and nothing for a value without one.
#[verifier::external_body]
pub(crate) fn get_member<'a>(value: &'a serde_json::Value, key: &str) -> (r: Option<
    &'a serde_json::Value,
>)
    ensures
        match r {
            Some(found) => json_member(*value, key@) == Some(*found),
            None => json_member(*value, key@) is None,
        },
{
    value.get(key)
}

/// Calls `serde_json::Value::as_str`. Not proved: that it hands out the
/// characters of a JSON string, and nothing for any other value.
#[verifier::external_body]
pub(crate) fn as_text<'a>(value: &'a serde_json::Value) -> (r: Option<&'a str>)
    ensures
        match r {
            Some(characters) => json_text(*value) == Some(characters@),
            None => json_text(*value) is None,
        },
{
    value.as_str()
}

/// Calls `serde_json::Value::is_null`.
#[verifier::external_body]
pub(crate) fn is_null(value: &serde_json::Value) -> (r: bool)
    ensures
        r == json_is_null(*value),
{
    value.is_null()
}

/// Calls `serde_json::to_string` on a string. Not proved: that the literal
/// is the string between quotes with serde_json's escapes, which
/// `json_quoted` spells out, and that the call succeeds. It does on a string:
/// serde_json fails only where a `Serialize` impl fails or a map has a key
/// that is no string, and it writes into memory.
#[verifier::external_body]
fn quote_text(text: &str) -> (r: Result<String, serde_json::Error>)
    ensures
        match r {
            Ok(literal) => literal@ == json_quoted(text@),
            Err(_) => false,
        },
{
    serde_json::to_string(text)
}

/// Writes a string as a JSON string literal.
pub fn quoted(text: &str) -> (literal: String)
    ensures
        literal@ == json_quoted(text@),
{
    match quote_text(text) {
        Ok(literal) => literal,
        Err(_) => vstd::pervasive::unreached(),
    }
}

/// A string of plain characters stands between the quotes as it is.
pub proof fn lemma_plain_text_is_quoted_as_it_is(text: Seq<char>)
    requires
        forall|i: int| 0 <= i < text.len() ==> is_plain(#[trigger] text[i]),
    ensures
        json_escaped(text) == text,
        json_quoted(text) == seq!['"'] + text + seq!['"'],
    decreases text.len(),
{
    if text.len() > 0 {
        let rest = text.drop_first();
        assert forall|i: int| 0 <= i < rest.len() implies is_plain(#[trigger] rest[i]) by {
            assert(rest[i] == text[i + 1]);
        }
        lemma_plain_text_is_quoted_as_it_is(rest);
        assert(is_plain(text[0]));
        assert(escape_of(text[0]) == seq![text[0]]);
        assert(seq![text[0]] + rest =~= text);
    } else {
        assert(json_escaped(text) =~= text);
    }
}

} // verus!
