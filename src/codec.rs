//! Calls into base64, serde_json and std that the pipelines rely on.
use vstd::prelude::*;
use base64::Engine;

verus! {

/// The text that base64's standard engine (padded alphabet) produces for `bytes`.
pub uninterp spec fn b64_encode(bytes: Seq<u8>) -> Seq<char>;

/// What base64's standard engine decodes `text` to, or `None` where it refuses it.
pub uninterp spec fn b64_decode(text: Seq<char>) -> Option<Seq<u8>>;

/// Whether serde_json parses `text` as a JSON value.
pub uninterp spec fn is_json(text: Seq<char>) -> bool;

/// A character of the standard base64 alphabet, padding included.
pub open spec fn is_b64_char(c: char) -> bool {
    ('A' <= c && c <= 'Z') || ('a' <= c && c <= 'z') || ('0' <= c && c <= '9') || c == '+' || c
        == '/' || c == '='
}

/// Relies on base64's `STANDARD.encode`: its output depends on the bytes alone,
/// has four characters for each started group of three bytes, is drawn from
/// the standard alphabet with `=` padding, and `STANDARD.decode` gives the
/// bytes back.
#[verifier::external_body]
pub(crate) fn encode_b64(bytes: &[u8]) -> (r: String)
    ensures
        r@ == b64_encode(bytes@),
        r@.len() == 4 * ((bytes@.len() + 2) / 3),
        b64_decode(r@) == Some(bytes@),
        forall|i: int| 0 <= i < r@.len() ==> is_b64_char(#[trigger] r@[i]),
{
    base64::engine::general_purpose::STANDARD.encode(bytes)
}

/// Relies on base64's `STANDARD.decode`: the decoded bytes, or the decoder's
/// message on malformed input.
#[verifier::external_body]
pub(crate) fn decode_b64(text: &str) -> (r: Result<Vec<u8>, String>)
    ensures
        match r {
            Ok(v) => b64_decode(text@) == Some(v@),
            Err(_) => b64_decode(text@) is None,
        },
{
    base64::engine::general_purpose::STANDARD.decode(text).map_err(|e| e.to_string())
}

/// Relies on `serde_json::from_str::<serde_json::Value>`: `None` where it
/// parses, the parser's message where it does not.
#[verifier::external_body]
pub(crate) fn json_error(text: &str) -> (r: Option<String>)
    ensures
        r is None <==> is_json(text@),
{
    serde_json::from_str::<serde_json::Value>(text).err().map(|e| e.to_string())
}

/// Relies on `String::from_utf8`: succeeds exactly on valid UTF-8 and then
/// holds the characters that the bytes encode; otherwise its message.
#[verifier::external_body]
pub(crate) fn utf8_to_string(bytes: Vec<u8>) -> (r: Result<String, String>)
    ensures
        r is Ok <==> vstd::utf8::valid_utf8(bytes@),
        r matches Ok(t) ==> t@ == vstd::utf8::decode_utf8(bytes@),
{
    String::from_utf8(bytes).map_err(|e| e.to_string())
}

/// Relies on `String::from_iter` over characters: the string of those characters.
#[verifier::external_body]
pub(crate) fn string_from_chars(chars: &[char]) -> (r: String)
    ensures
        r@ == chars@,
{
    chars.iter().collect()
}

/// Whether `text` is a syntactically valid JSON document.
pub fn verify_credential_json(text: &str) -> (r: bool)
    ensures
        r == is_json(text@),
{
    json_error(text).is_none()
}

} // verus!
