//! Baking into and extraction from SVG documents.
//!
//! The credential travels base64-encoded in the `verify` attribute of an
//! `<openbadges:credential>` element placed just before the root's closing
//! `</svg>` tag. Elements are found by their literal tag text: the document is
//! not parsed as XML.
use vstd::prelude::*;
use crate::codec::{b64_decode, b64_encode, decode_b64, encode_b64, is_json, json_error,
    string_from_chars, utf8_to_string};
use crate::error::BakingError;
use crate::text::{as_int, chars_of, find_chars, find_from, find_last, find_last_chars, lemma_find_from_hit, lemma_find_last_hit,
    lemma_occurs_found, occurs_at, push_range};

verus! {

/// How a credential element opens.
pub const CREDENTIAL_TAG_START: &'static str = "<openbadges:credential";

/// How a credential element closes when it is not self-closing.
pub const CREDENTIAL_TAG_END: &'static str = "</openbadges:credential>";

/// The root's closing tag, before which the credential goes.
pub const SVG_CLOSE_TAG: &'static str = "</svg>";

/// The attribute that carries the encoded credential, up to its opening quote.
pub const VERIFY_ATTR: &'static str = "verify=\"";

/// A new credential element up to its payload.
pub const ELEMENT_HEAD: &'static str =
    "<openbadges:credential xmlns:openbadges=\"https://purl.imsglobal.org/ob/v3p0\" verify=\"";

/// A new credential element after its payload.
pub const ELEMENT_TAIL: &'static str = "\"/>";

/// The document holds the opening of a credential element.
pub open spec fn has_credential_element(doc: Seq<char>) -> bool {
    find_from(doc, CREDENTIAL_TAG_START@, 0) is Some
}

/// Where the credential element that opens at `start` ends (one past its last
/// character): after the first `</openbadges:credential>` that follows it.
/// Where no such closing tag follows, and only then, an element whose first
/// `>` closes a self-closing tag `/>` ends there; this is a deliberate choice,
/// so that overwriting also replaces the self-closing elements that baking
/// writes. `None` where neither is found: such an element is left in place.
pub open spec fn element_end(doc: Seq<char>, start: int) -> Option<int> {
    match find_from(doc, CREDENTIAL_TAG_END@, start) {
        Some(end) => Some(end + CREDENTIAL_TAG_END@.len()),
        None => match find_from(doc, seq!['>'], start) {
            Some(g) if g > start && doc[g - 1] == '/' => Some(g + 1),
            _ => None,
        },
    }
}

/// The document without its first credential element, where that element's
/// end is found; otherwise unchanged.
pub open spec fn without_credential_element(doc: Seq<char>) -> Seq<char> {
    match find_from(doc, CREDENTIAL_TAG_START@, 0) {
        Some(start) => match element_end(doc, start) {
            Some(end) => doc.subrange(0, start) + doc.subrange(end, doc.len() as int),
            None => doc,
        },
        None => doc,
    }
}

/// The element that carries the base64 text `payload` in its `verify` attribute.
pub open spec fn payload_element(payload: Seq<char>) -> Seq<char> {
    ELEMENT_HEAD@ + payload + ELEMENT_TAIL@
}

/// The element that carries `cred`: its UTF-8 bytes, base64-encoded.
pub open spec fn credential_element(cred: Seq<char>) -> Seq<char> {
    payload_element(b64_encode(vstd::utf8::encode_utf8(cred)))
}

/// `doc` with a newline and `element` inserted before its last `</svg>`;
/// `None` where it has none.
pub open spec fn insert_before_close(doc: Seq<char>, element: Seq<char>) -> Option<Seq<char>> {
    match find_last(doc, SVG_CLOSE_TAG@) {
        Some(p) => Some(doc.subrange(0, p) + seq!['\n'] + element + doc.subrange(p, doc.len() as int)),
        None => None,
    }
}

/// The document that placing the element for `payload` into `doc` produces,
/// once no existing element stands in the way.
pub open spec fn baked_with_payload(doc: Seq<char>, payload: Seq<char>, overwrite: bool) -> Option<
    Seq<char>,
> {
    let base = if overwrite {
        without_credential_element(doc)
    } else {
        doc
    };
    insert_before_close(base, payload_element(payload))
}

/// The document that baking `cred` into `doc` produces, once the credential has
/// passed the JSON check and no existing element stands in the way.
pub open spec fn baked_svg(doc: Seq<char>, cred: Seq<char>, overwrite: bool) -> Option<Seq<char>> {
    baked_with_payload(doc, b64_encode(vstd::utf8::encode_utf8(cred)), overwrite)
}

/// The base64 text in the `verify` attribute that follows the first opening of
/// a credential element, up to the next double quote.
pub open spec fn verify_payload(doc: Seq<char>) -> Option<Seq<char>> {
    match find_from(doc, CREDENTIAL_TAG_START@, 0) {
        Some(start) => match find_from(doc, VERIFY_ATTR@, start) {
            Some(v) => {
                let from = v + VERIFY_ATTR@.len();
                match find_from(doc, seq!['"'], from) {
                    Some(q) => Some(doc.subrange(from, q)),
                    None => None,
                }
            },
            None => None,
        },
        None => None,
    }
}

/// Where the credential element that opens at `start` ends.
fn element_end_exec(doc: &Vec<char>, start: usize) -> (r: Option<usize>)
    ensures
        as_int(r) == element_end(doc@, start as int),
        r matches Some(end) ==> start <= end <= doc@.len(),
{
    // Positions within the document fit in a usize.
    let _doc_len: usize = doc.len();
    let end_pat = chars_of(CREDENTIAL_TAG_END);
    if let Some(e) = find_chars(doc, &end_pat, start) {
        proof {
            lemma_find_from_hit(doc@, end_pat@, start as int);
        }
        return Some(e + end_pat.len());
    }
    let gt: Vec<char> = vec!['>'];
    assert(gt@ =~= seq!['>']);
    match find_chars(doc, &gt, start) {
        Some(g) => {
            proof {
                lemma_find_from_hit(doc@, gt@, start as int);
            }
            if g > start && doc[g - 1] == '/' {
                Some(g + 1)
            } else {
                None
            }
        },
        None => None,
    }
}

/// Places the element that carries the base64 text `payload` into the SVG
/// document `svg_content`.
///
/// An existing credential element is an error unless `overwrite` is set, in
/// which case the first one is removed (see [`without_credential_element`]).
/// The new element goes on a line of its own just before the last `</svg>`.
pub fn bake_svg_payload(svg_content: &str, payload: &str, overwrite: bool) -> (r: Result<
    String,
    BakingError,
>)
    ensures
        !overwrite && has_credential_element(svg_content@) ==> r matches Err(
            BakingError::CredentialExists,
        ),
        overwrite || !has_credential_element(svg_content@) ==> match baked_with_payload(
            svg_content@,
            payload@,
            overwrite,
        ) {
            Some(out) => r matches Ok(t) && t@ == out,
            None => r matches Err(BakingError::SvgError(_)),
        },
{
    let doc = chars_of(svg_content);
    let start_pat = chars_of(CREDENTIAL_TAG_START);
    let found = find_chars(&doc, &start_pat, 0);
    if !overwrite && found.is_some() {
        return Err(BakingError::CredentialExists);
    }
    let mut base: Vec<char> = doc.clone();
    if overwrite {
        if let Some(start) = found {
            if let Some(end) = element_end_exec(&doc, start) {
                let mut kept: Vec<char> = Vec::new();
                push_range(&mut kept, &doc, 0, start);
                push_range(&mut kept, &doc, end, doc.len());
                base = kept;
            }
        }
    }
    assert(base@ == if overwrite { without_credential_element(svg_content@) } else { svg_content@ });
    let mut element = chars_of(ELEMENT_HEAD);
    let payload_chars = chars_of(payload);
    let tail = chars_of(ELEMENT_TAIL);
    push_range(&mut element, &payload_chars, 0, payload_chars.len());
    push_range(&mut element, &tail, 0, tail.len());
    assert(payload_chars@.subrange(0, payload_chars@.len() as int) =~= payload_chars@);
    assert(tail@.subrange(0, tail@.len() as int) =~= tail@);
    assert(element@ == payload_element(payload@));
    let close = chars_of(SVG_CLOSE_TAG);
    match find_last_chars(&base, &close) {
        Some(p) => {
            proof {
                lemma_find_last_hit(base@, close@, base@.len() + 1 as int);
            }
            let mut out: Vec<char> = Vec::new();
            push_range(&mut out, &base, 0, p);
            out.push('\n');
            push_range(&mut out, &element, 0, element.len());
            push_range(&mut out, &base, p, base.len());
            assert(element@.subrange(0, element@.len() as int) =~= element@);
            assert(out@ =~= base@.subrange(0, p as int) + seq!['\n'] + element@ + base@.subrange(
                p as int,
                base@.len() as int,
            ));
            Ok(string_from_chars(out.as_slice()))
        },
        None => Err(BakingError::SvgError(String::from_str("Could not find closing </svg> tag"))),
    }
}

/// Bakes `credential_json` into the SVG document `svg_content`.
///
/// The credential must be valid JSON; its UTF-8 bytes are base64-encoded and
/// placed as [`bake_svg_payload`] says.
pub fn bake_svg_impl(svg_content: &str, credential_json: &str, overwrite: bool) -> (r: Result<
    String,
    BakingError,
>)
    ensures
        !is_json(credential_json@) ==> r matches Err(BakingError::InvalidJson(_)),
        is_json(credential_json@) && !overwrite && has_credential_element(svg_content@) ==> r matches Err(
            BakingError::CredentialExists,
        ),
        is_json(credential_json@) && (overwrite || !has_credential_element(svg_content@)) ==> match baked_svg(
            svg_content@,
            credential_json@,
            overwrite,
        ) {
            Some(out) => r matches Ok(t) && t@ == out,
            None => r matches Err(BakingError::SvgError(_)),
        },
{
    if let Some(msg) = json_error(credential_json) {
        return Err(BakingError::InvalidJson(msg));
    }
    let payload = encode_b64(credential_json.as_bytes());
    bake_svg_payload(svg_content, payload.as_str(), overwrite)
}

/// Reads back the credential baked into the SVG document `svg_content`.
///
/// `Ok(None)` where no credential element, `verify` attribute or closing quote
/// is found; otherwise the attribute's base64 text decoded to UTF-8.
pub fn extract_svg_impl(svg_content: &str) -> (r: Result<Option<String>, BakingError>)
    ensures
        match verify_payload(svg_content@) {
            None => r matches Ok(None),
            Some(text) => match b64_decode(text) {
                None => r matches Err(BakingError::Base64Error(_)),
                Some(bytes) => if vstd::utf8::valid_utf8(bytes) {
                    r matches Ok(Some(t)) && t@ == vstd::utf8::decode_utf8(bytes)
                } else {
                    r matches Err(BakingError::Utf8Error(_))
                },
            },
        },
{
    let doc = chars_of(svg_content);
    let start_pat = chars_of(CREDENTIAL_TAG_START);
    let start = match find_chars(&doc, &start_pat, 0) {
        Some(i) => i,
        None => return Ok(None),
    };
    let attr = chars_of(VERIFY_ATTR);
    let v = match find_chars(&doc, &attr, start) {
        Some(i) => i,
        None => return Ok(None),
    };
    proof {
        lemma_find_from_hit(doc@, attr@, start as int);
    }
    // Positions within the document fit in a usize.
    let _doc_len: usize = doc.len();
    assert(occurs_at(doc@, attr@, v as int));
    let from: usize = v + attr.len();
    let quote: Vec<char> = vec!['"'];
    assert(quote@ =~= seq!['"']);
    let q = match find_chars(&doc, &quote, from) {
        Some(i) => i,
        None => return Ok(None),
    };
    proof {
        lemma_find_from_hit(doc@, quote@, from as int);
    }
    let mut text: Vec<char> = Vec::new();
    push_range(&mut text, &doc, from, q);
    assert(text@ =~= doc@.subrange(from as int, q as int));
    let encoded = string_from_chars(text.as_slice());
    let bytes = match decode_b64(encoded.as_str()) {
        Ok(b) => b,
        Err(msg) => return Err(BakingError::Base64Error(msg)),
    };
    match utf8_to_string(bytes) {
        Ok(t) => Ok(Some(t)),
        Err(msg) => Err(BakingError::Utf8Error(msg)),
    }
}

/// Every document that baking produces holds a credential element, so a second
/// bake into it without `overwrite` is refused with `CredentialExists`.
pub proof fn lemma_baked_svg_holds_credential(doc: Seq<char>, cred: Seq<char>, overwrite: bool)
    requires
        baked_svg(doc, cred, overwrite) is Some,
    ensures
        has_credential_element(baked_svg(doc, cred, overwrite)->Some_0),
{
    let base = if overwrite {
        without_credential_element(doc)
    } else {
        doc
    };
    let element = credential_element(cred);
    let p = find_last(base, SVG_CLOSE_TAG@)->Some_0;
    let pre = base.subrange(0, p);
    let out = baked_svg(doc, cred, overwrite)->Some_0;
    let at: int = pre.len() + 1int;
    let n: int = CREDENTIAL_TAG_START@.len() as int;
    reveal_strlit("<openbadges:credential");
    reveal_strlit(
        "<openbadges:credential xmlns:openbadges=\"https://purl.imsglobal.org/ob/v3p0\" verify=\"",
    );
    assert(element.subrange(0, n as int) =~= CREDENTIAL_TAG_START@);
    assert(out.subrange(at, at + n) =~= element.subrange(0, n as int));
    assert(occurs_at(out, CREDENTIAL_TAG_START@, at));
    lemma_occurs_found(out, CREDENTIAL_TAG_START@, 0, at);
}

/// A document without a credential element yields no payload: extraction
/// reports absence, not failure.
pub proof fn lemma_svg_absent_not_failure(doc: Seq<char>)
    requires
        !has_credential_element(doc),
    ensures
        verify_payload(doc) is None,
{
}

} // verus!
