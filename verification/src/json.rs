//! JSON text for the wire: the text of each string comes from `serde_json`,
//! the framing of the two-member objects that this crate sends is done here.

use vstd::prelude::*;
use vstd::string::StringExecFns;

verus! {

/// Whether `c` is written as an escape in a JSON string: the control
/// characters below the space, the double quote and the backslash.
pub open spec fn needs_escape(c: char) -> bool {
    (c as u32) < 0x20 || c == '"' || c == '\\'
}

/// Whether no character of `s` needs an escape.
pub open spec fn is_plain(s: Seq<char>) -> bool {
    forall|i: int| 0 <= i < s.len() ==> !needs_escape(#[trigger] s[i])
}

/// `s` between double quotes.
pub open spec fn quoted(s: Seq<char>) -> Seq<char> {
    seq!['"'] + s + seq!['"']
}

/// The JSON text that `serde_json` writes for a string in which some
/// character needs an escape.
pub uninterp spec fn escaped_string_text(s: Seq<char>) -> Seq<char>;

/// The compact JSON text of the string `s`: `s` between double quotes where
/// nothing in it needs an escape, and the text with the escapes of
/// `serde_json` otherwise.
pub open spec fn json_string_text(s: Seq<char>) -> Seq<char> {
    if is_plain(s) {
        quoted(s)
    } else {
        escaped_string_text(s)
    }
}

/// Serialises `s` as a JSON string through `<serde_json::Value as ToString>::to_string`
/// on `Value::String`.
///
/// Trusted: the result is the compact JSON text of the string, which depends
/// on the characters of `s` alone. The serialiser writes a double quote, the
/// characters of `s`, and a double quote, and replaces by an escape only the
/// characters below the space, the double quote and the backslash; so a
/// string without any of these comes back between quotes, unchanged.
/// Formatting a string value into a `String` cannot fail, so the call does
/// not panic.
#[verifier::external_body]
pub(crate) fn json_string(s: &str) -> (text: String)
    ensures
        is_plain(s@) ==> text@ == quoted(s@),
        !is_plain(s@) ==> text@ == escaped_string_text(s@),
{
    serde_json::Value::String(s.to_owned()).to_string()
}

/// The compact text of a JSON object with two members, given the texts of its
/// keys and values.
pub open spec fn object_text(
    key1: Seq<char>,
    value1: Seq<char>,
    key2: Seq<char>,
    value2: Seq<char>,
) -> Seq<char> {
    seq!['{'] + key1 + seq![':'] + value1 + seq![','] + key2 + seq![':'] + value2 + seq!['}']
}

/// Frames a two-member JSON object from the already serialised texts of its
/// keys and values, in the order given.
pub fn frame_object(key1: &str, value1: &str, key2: &str, value2: &str) -> (text: String)
    ensures
        text@ == object_text(key1@, value1@, key2@, value2@),
{
    proof {
        reveal_strlit("{");
        reveal_strlit(":");
        reveal_strlit(",");
        reveal_strlit("}");
    }
    let mut text = String::from_str("{");
    text.append(key1);
    text.append(":");
    text.append(value1);
    text.append(",");
    text.append(key2);
    text.append(":");
    text.append(value2);
    text.append("}");
    text
}

/// The text of a JSON object whose two members are strings.
pub open spec fn string_object_text(
    key1: Seq<char>,
    value1: Seq<char>,
    key2: Seq<char>,
    value2: Seq<char>,
) -> Seq<char> {
    object_text(
        json_string_text(key1),
        json_string_text(value1),
        json_string_text(key2),
        json_string_text(value2),
    )
}

/// Serialises the object `{key1: value1, key2: value2}` of two string members.
pub fn string_object(key1: &str, value1: &str, key2: &str, value2: &str) -> (text: String)
    ensures
        text@ == string_object_text(key1@, value1@, key2@, value2@),
{
    let k1 = json_string(key1);
    let v1 = json_string(value1);
    let k2 = json_string(key2);
    let v2 = json_string(value2);
    frame_object(k1.as_str(), v1.as_str(), k2.as_str(), v2.as_str())
}

} // verus!
