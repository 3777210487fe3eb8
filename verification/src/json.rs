//! JSON string literals, which `serde_json` writes for the library.

use vstd::prelude::*;

verus! {

#[verifier::external_type_specification]
#[verifier::external_body]
pub struct ExJsonError(serde_json::Error);

/// The JSON string literal for the text `s`, as `serde_json` writes it: `s`
/// between double quotes, with each double quote, backslash and control
/// character inside it written as an escape.
pub uninterp spec fn json_string(s: Seq<char>) -> Seq<char>;

/// Whether a JSON string literal has to write `c` as an escape: the double
/// quote, the backslash and the control characters below U+0020.
pub open spec fn needs_escape(c: char) -> bool {
    c == '"' || c == '\\' || (c as u32) < 0x20
}

/// Whether `s` holds no character that a JSON string literal has to escape.
pub open spec fn is_plain_text(s: Seq<char>) -> bool {
    forall|i: int| 0 <= i < s.len() ==> !needs_escape(#[trigger] s[i])
}

/// `s` between two double quotes.
pub open spec fn quoted(s: Seq<char>) -> Seq<char> {
    seq!['"'] + s + seq!['"']
}

/// `serde_json::to_string` on a string slice.
///
/// Trusted, of that call:
/// - It returns `Ok`. The serializer writes into a byte vector in memory,
///   which takes every write, and a string has no map keys to reject, so
///   neither of the two documented causes of an error can arise.
/// - The text in it depends on the characters of `s` alone.
/// - Where `s` holds no character to escape, the text is `s` between double
///   quotes: the serializer copies every other character as it stands.
#[verifier::external_body]
pub(crate) fn to_json_string(s: &str) -> (literal: Result<String, serde_json::Error>)
    ensures
        literal is Ok,
        literal->Ok_0@ == json_string(s@),
        is_plain_text(s@) ==> literal->Ok_0@ == quoted(s@),
{
    serde_json::to_string(s)
}

} // verus!
