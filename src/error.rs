//! The failures that baking and extraction report.
use vstd::prelude::*;

verus! {

/// Every way in which baking or extraction can fail.
#[derive(Debug)]
pub enum BakingError {
    /// The base64 input is malformed; holds the decoder's message.
    Base64Error(String),
    /// The PNG bytes are structurally invalid or truncated; holds the decoder's message.
    PngDecodeError(String),
    /// Re-encoding the PNG failed; holds the encoder's message.
    PngEncodeError(String),
    /// A credential is already present and overwriting was not asked for.
    CredentialExists,
    /// The credential text is not syntactically valid JSON; holds the parser's message.
    InvalidJson(String),
    /// The SVG document has no closing `</svg>` tag to anchor the credential.
    SvgError(String),
    /// The decoded credential bytes are not valid UTF-8; holds the conversion's message.
    Utf8Error(String),
}

} // verus!
