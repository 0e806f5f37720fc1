//! Embedding and recovery of Open Badges credentials in PNG and SVG images.
//!
//! A PNG badge carries its credential as an iTXt chunk with the keyword
//! `openbadgecredential`; an SVG badge carries it, base64-encoded, in the
//! `verify` attribute of an `<openbadges:credential>` element.
use vstd::prelude::*;

pub mod codec;
pub mod text;
pub mod error;
pub mod raster;
pub mod svg;

pub use codec::verify_credential_json;
pub use error::BakingError;
pub use raster::{bake_png_impl, extract_png_impl, find_credential, holds_credential, RasterInfo, TextUnit};
pub use svg::{bake_svg_impl, bake_svg_payload, extract_svg_impl};
