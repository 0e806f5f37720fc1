//! Baking into and extraction from PNG images.
//!
//! The credential travels as the text of an iTXt chunk with the keyword
//! `openbadgecredential`. Baking re-encodes the image with the same header and
//! pixel data and that one text chunk.
use vstd::prelude::*;
use crate::codec::{b64_decode, b64_encode, decode_b64, encode_b64, is_json, json_error};
use crate::error::BakingError;

verus! {

#[verifier::external_type_specification]
#[verifier::external_body]
pub struct ExColorType(png::ColorType);

#[verifier::external_type_specification]
#[verifier::external_body]
pub struct ExBitDepth(png::BitDepth);

/// The keyword of the text chunk that carries a credential.
pub const CREDENTIAL_KEYWORD: &'static str = "openbadgecredential";

/// One text chunk of a PNG image.
pub struct TextUnit {
    pub keyword: String,
    /// The chunk's text; `None` where it could not be decompressed or decoded.
    pub text: Option<String>,
}

/// What the logic reads of one text chunk.
pub ghost struct TextUnitView {
    pub keyword: Seq<char>,
    pub text: Option<Seq<char>>,
}

impl View for TextUnit {
    type V = TextUnitView;

    open spec fn view(&self) -> TextUnitView {
        TextUnitView {
            keyword: self.keyword@,
            text: match self.text {
                Some(t) => Some(t@),
                None => None,
            },
        }
    }
}

impl TextUnit {
    pub fn new(keyword: &String, text: Option<String>) -> (r: TextUnit)
        ensures
            r.keyword == *keyword,
            r.text == text,
    {
        TextUnit { keyword: keyword.clone(), text }
    }
}

/// The header and the text chunks of a decoded PNG image.
pub struct RasterInfo {
    pub width: u32,
    pub height: u32,
    pub color: png::ColorType,
    pub depth: png::BitDepth,
    /// iTXt chunks, in the order of the file.
    pub international: Vec<TextUnit>,
    /// tEXt chunks, in the order of the file.
    pub latin1: Vec<TextUnit>,
    /// zTXt chunks, in the order of the file.
    pub latin1_compressed: Vec<TextUnit>,
}

/// What the logic reads of a decoded PNG image.
pub ghost struct RasterInfoView {
    pub width: u32,
    pub height: u32,
    pub color: png::ColorType,
    pub depth: png::BitDepth,
    pub international: Seq<TextUnitView>,
    pub latin1: Seq<TextUnitView>,
    pub latin1_compressed: Seq<TextUnitView>,
}

impl View for RasterInfo {
    type V = RasterInfoView;

    open spec fn view(&self) -> RasterInfoView {
        RasterInfoView {
            width: self.width,
            height: self.height,
            color: self.color,
            depth: self.depth,
            international: self.international@.map_values(|u: TextUnit| u@),
            latin1: self.latin1@.map_values(|u: TextUnit| u@),
            latin1_compressed: self.latin1_compressed@.map_values(|u: TextUnit| u@),
        }
    }
}

/// What png's decoder reads from `bytes` up to the image data, or `None` where it fails.
pub uninterp spec fn png_info_of(bytes: Seq<u8>) -> Option<RasterInfoView>;

/// The bytes of the first frame that png's decoder reads from `bytes`, or `None` where it fails.
pub uninterp spec fn png_frame_of(bytes: Seq<u8>) -> Option<Seq<u8>>;

/// The palette (PLTE) and transparency (tRNS) data that png's decoder reads
/// from `bytes`, each where present, or `None` where it fails.
pub uninterp spec fn png_palette_of(bytes: Seq<u8>) -> Option<(Option<Seq<u8>>, Option<Seq<u8>>)>;

/// The file that png's encoder writes for this header, palette and
/// transparency (each where present), one iTXt chunk and these pixels, at
/// default compression; `None` where it fails.
pub uninterp spec fn png_encoded(
    width: u32,
    height: u32,
    color: png::ColorType,
    depth: png::BitDepth,
    palette: Option<Seq<u8>>,
    transparency: Option<Seq<u8>>,
    keyword: Seq<char>,
    text: Seq<char>,
    pixels: Seq<u8>,
) -> Option<Seq<u8>>;

/// The contents of optional bytes.
pub open spec fn opt_bytes(o: Option<Vec<u8>>) -> Option<Seq<u8>> {
    match o {
        Some(v) => Some(v@),
        None => None,
    }
}

/// Relies on png's `Decoder::read_info`: the palette and transparency data of
/// `bytes`, each where the file has it.
#[verifier::external_body]
fn read_png_palette(bytes: &[u8]) -> (r: Result<(Option<Vec<u8>>, Option<Vec<u8>>), String>)
    ensures
        match r {
            Ok((p, t)) => png_palette_of(bytes@) == Some((opt_bytes(p), opt_bytes(t))),
            Err(_) => png_palette_of(bytes@) is None,
        },
{
    let reader = png::Decoder::new(std::io::Cursor::new(bytes)).read_info().map_err(|e| e.to_string())?;
    let i = reader.info();
    Ok((i.palette.as_ref().map(|p| p.to_vec()), i.trns.as_ref().map(|t| t.to_vec())))
}

/// A raw frame of this size, at up to eight bytes a pixel, fits in a `usize`.
pub open spec fn frame_fits(width: u32, height: u32) -> bool {
    width as int * height as int * 8 <= usize::MAX as int
}

/// Relies on png's `Decoder::read_info`: the header and text chunks of `bytes`,
/// the text of each iTXt and zTXt chunk through the chunk's `get_text`; a tEXt
/// chunk's text is held already decoded, so it is always there.
#[verifier::external_body]
fn read_png_info(bytes: &[u8]) -> (r: Result<RasterInfo, String>)
    ensures
        match r {
            Ok(info) => png_info_of(bytes@) == Some(info@),
            Err(_) => png_info_of(bytes@) is None,
        },
        r matches Ok(info) ==> forall|i: int|
            0 <= i < info.latin1@.len() ==> (#[trigger] info.latin1@[i]).text is Some,
{
    let reader = png::Decoder::new(std::io::Cursor::new(bytes)).read_info().map_err(|e| e.to_string())?;
    let i = reader.info();
    Ok(RasterInfo {
        width: i.width,
        height: i.height,
        color: i.color_type,
        depth: i.bit_depth,
        international: i.utf8_text.iter().map(|c| TextUnit::new(&c.keyword, c.get_text().ok())).collect(),
        latin1: i.uncompressed_latin1_text.iter().map(|c| TextUnit::new(&c.keyword, Some(c.text.clone()))).collect(),
        latin1_compressed: i.compressed_latin1_text.iter().map(|c| TextUnit::new(&c.keyword, c.get_text().ok())).collect(),
    })
}

/// Relies on png's `Reader::next_frame`: the first frame's bytes, cut to the
/// size that the decoder reports for it.
#[verifier::external_body]
fn read_png_frame(bytes: &[u8]) -> (r: Result<Vec<u8>, String>)
    ensures
        match r {
            Ok(pixels) => png_frame_of(bytes@) == Some(pixels@),
            Err(_) => png_frame_of(bytes@) is None,
        },
{
    let mut reader = png::Decoder::new(std::io::Cursor::new(bytes)).read_info().map_err(|e| e.to_string())?;
    let mut buf = vec![0; reader.output_buffer_size()];
    let frame = reader.next_frame(&mut buf).map_err(|e| e.to_string())?;
    buf.truncate(frame.buffer_size());
    Ok(buf)
}

/// Relies on png's `Encoder`: writes the header, the palette and transparency
/// that are given, one iTXt chunk and the pixels.
/// The writer multiplies the row length by the height unchecked, so the raw
/// frame must fit in a `usize`.
#[verifier::external_body]
fn write_png(
    width: u32,
    height: u32,
    color: png::ColorType,
    depth: png::BitDepth,
    palette: Option<Vec<u8>>,
    transparency: Option<Vec<u8>>,
    keyword: &str,
    text: &str,
    pixels: &[u8],
) -> (r: Result<Vec<u8>, String>)
    requires
        frame_fits(width, height),
    ensures
        match r {
            Ok(out) => png_encoded(width, height, color, depth, opt_bytes(palette), opt_bytes(transparency), keyword@, text@, pixels@) == Some(out@),
            Err(_) => png_encoded(width, height, color, depth, opt_bytes(palette), opt_bytes(transparency), keyword@, text@, pixels@) is None,
        },
{
    let mut out = Vec::new();
    let mut enc = png::Encoder::new(&mut out, width, height);
    enc.set_color(color);
    enc.set_depth(depth);
    if let Some(p) = palette { enc.set_palette(p); }
    if let Some(t) = transparency { enc.set_trns(t); }
    enc.set_compression(png::Compression::Default);
    enc.add_itxt_chunk(keyword.to_string(), text.to_string()).map_err(|e| e.to_string())?;
    let mut writer = enc.write_header().map_err(|e| e.to_string())?;
    writer.write_image_data(pixels).map_err(|e| e.to_string())?;
    writer.finish().map_err(|e| e.to_string())?;
    Ok(out)
}

/// The first unit at or after position `i` whose keyword is the credential keyword.
pub open spec fn first_credential_from(units: Seq<TextUnitView>, i: int) -> Option<TextUnitView>
    decreases units.len() - i,
{
    if i < 0 || i >= units.len() {
        None
    } else if units[i].keyword == CREDENTIAL_KEYWORD@ {
        Some(units[i])
    } else {
        first_credential_from(units, i + 1)
    }
}

/// The unit that carries the credential: the first with the credential keyword
/// among the iTXt chunks, else among the tEXt chunks, else among the zTXt chunks.
pub open spec fn credential_unit(info: RasterInfoView) -> Option<TextUnitView> {
    match first_credential_from(info.international, 0) {
        Some(u) => Some(u),
        None => match first_credential_from(info.latin1, 0) {
            Some(u) => Some(u),
            None => first_credential_from(info.latin1_compressed, 0),
        },
    }
}

/// Some text chunk, of any of the three kinds, has the credential keyword.
pub open spec fn has_credential(info: RasterInfoView) -> bool {
    credential_unit(info) is Some
}

/// What extraction returns for a decoded image: the credential unit's text,
/// `None` where there is no such unit, `Err` where its text could not be read.
pub open spec fn extracted_png(info: RasterInfoView) -> Result<Option<Seq<char>>, ()> {
    match credential_unit(info) {
        None => Ok(None),
        Some(u) => match u.text {
            Some(t) => Ok(Some(t)),
            None => Err(()),
        },
    }
}

/// The position of the first unit with the credential keyword.
fn credential_position(units: &Vec<TextUnit>, key: &String) -> (r: Option<usize>)
    requires
        key@ == CREDENTIAL_KEYWORD@,
    ensures
        match r {
            Some(i) => i < units@.len() && first_credential_from(
                units@.map_values(|u: TextUnit| u@),
                0,
            ) == Some(units@[i as int]@),
            None => first_credential_from(units@.map_values(|u: TextUnit| u@), 0) is None,
        },
{
    let ghost views = units@.map_values(|u: TextUnit| u@);
    let mut i: usize = 0;
    while i < units.len()
        invariant
            i <= units@.len(),
            key@ == CREDENTIAL_KEYWORD@,
            views == units@.map_values(|u: TextUnit| u@),
            first_credential_from(views, 0) == first_credential_from(views, i as int),
        decreases units@.len() - i,
    {
        if units[i].keyword == *key {
            return Some(i);
        }
        i = i + 1;
    }
    None
}

/// The credential keyword as an owned string.
fn credential_keyword() -> (r: String)
    ensures
        r@ == CREDENTIAL_KEYWORD@,
{
    String::from_str(CREDENTIAL_KEYWORD)
}

/// Whether some text chunk of the decoded image has the credential keyword.
pub fn holds_credential(info: &RasterInfo) -> (r: bool)
    ensures
        r == has_credential(info@),
{
    let key = credential_keyword();
    credential_position(&info.international, &key).is_some() || credential_position(
        &info.latin1,
        &key,
    ).is_some() || credential_position(&info.latin1_compressed, &key).is_some()
}

/// The credential text of a decoded image, looked up in the order iTXt, tEXt,
/// zTXt; `None` where no chunk has the credential keyword.
pub fn find_credential(info: &RasterInfo) -> (r: Result<Option<String>, BakingError>)
    ensures
        match extracted_png(info@) {
            Ok(None) => r matches Ok(None),
            Ok(Some(t)) => r matches Ok(Some(s)) && s@ == t,
            Err(_) => r matches Err(BakingError::PngDecodeError(_)),
        },
{
    let key = credential_keyword();
    let unit = match credential_position(&info.international, &key) {
        Some(i) => &info.international[i],
        None => match credential_position(&info.latin1, &key) {
            Some(i) => &info.latin1[i],
            None => match credential_position(&info.latin1_compressed, &key) {
                Some(i) => &info.latin1_compressed[i],
                None => return Ok(None),
            },
        },
    };
    match &unit.text {
        Some(t) => Ok(Some(t.clone())),
        None => Err(BakingError::PngDecodeError(String::from_str("credential text could not be decoded"))),
    }
}

/// The file that baking `cred` writes for a decoded image with this palette,
/// transparency and pixel data; `None` where the encoder fails.
pub open spec fn rebaked_png(
    info: RasterInfoView,
    palette: Option<Seq<u8>>,
    transparency: Option<Seq<u8>>,
    pixels: Seq<u8>,
    cred: Seq<char>,
) -> Option<Seq<u8>> {
    png_encoded(
        info.width,
        info.height,
        info.color,
        info.depth,
        palette,
        transparency,
        CREDENTIAL_KEYWORD@,
        cred,
        pixels,
    )
}

/// Bakes `credential_json` into the base64-encoded PNG image `image_data_b64`.
///
/// The credential must be valid JSON. An image whose text chunks already hold
/// the credential keyword is refused unless `overwrite` is set. The result is
/// the base64 encoding of a new PNG file with the same header, palette,
/// transparency and pixel data and one iTXt chunk that holds the credential
/// text.
pub fn bake_png_impl(image_data_b64: &str, credential_json: &str, overwrite: bool) -> (r: Result<
    String,
    BakingError,
>)
    ensures
        !is_json(credential_json@) ==> r matches Err(BakingError::InvalidJson(_)),
        is_json(credential_json@) ==> match b64_decode(image_data_b64@) {
            None => r matches Err(BakingError::Base64Error(_)),
            Some(bytes) => match png_info_of(bytes) {
                None => r matches Err(BakingError::PngDecodeError(_)),
                Some(info) => if !overwrite && has_credential(info) {
                    r matches Err(BakingError::CredentialExists)
                } else {
                    match (png_palette_of(bytes), png_frame_of(bytes)) {
                        (None, _) => r matches Err(BakingError::PngDecodeError(_)),
                        (_, None) => r matches Err(BakingError::PngDecodeError(_)),
                        (Some((palette, transparency)), Some(pixels)) => if !frame_fits(
                            info.width,
                            info.height,
                        ) {
                            r matches Err(BakingError::PngEncodeError(_))
                        } else {
                            match rebaked_png(info, palette, transparency, pixels, credential_json@) {
                                None => r matches Err(BakingError::PngEncodeError(_)),
                                Some(out) => r matches Ok(s) && s@ == b64_encode(out),
                            }
                        },
                    }
                },
            },
        },
{
    if let Some(msg) = json_error(credential_json) {
        return Err(BakingError::InvalidJson(msg));
    }
    let bytes = match decode_b64(image_data_b64) {
        Ok(b) => b,
        Err(msg) => return Err(BakingError::Base64Error(msg)),
    };
    let info = match read_png_info(bytes.as_slice()) {
        Ok(i) => i,
        Err(msg) => return Err(BakingError::PngDecodeError(msg)),
    };
    if !overwrite && holds_credential(&info) {
        return Err(BakingError::CredentialExists);
    }
    let (palette, transparency) = match read_png_palette(bytes.as_slice()) {
        Ok(pt) => pt,
        Err(msg) => return Err(BakingError::PngDecodeError(msg)),
    };
    let pixels = match read_png_frame(bytes.as_slice()) {
        Ok(p) => p,
        Err(msg) => return Err(BakingError::PngDecodeError(msg)),
    };
    let w: u64 = info.width as u64;
    let h: u64 = info.height as u64;
    assert(w * h <= 0xffff_ffffu64 * 0xffff_ffffu64) by (nonlinear_arith)
        requires
            w <= 0xffff_ffffu64,
            h <= 0xffff_ffffu64,
    ;
    let pixel_count: u64 = w * h;
    if pixel_count > (usize::MAX / 8) as u64 {
        return Err(BakingError::PngEncodeError(String::from_str("image too large to encode")));
    }
    let out = match write_png(
        info.width,
        info.height,
        info.color,
        info.depth,
        palette,
        transparency,
        CREDENTIAL_KEYWORD,
        credential_json,
        pixels.as_slice(),
    ) {
        Ok(o) => o,
        Err(msg) => return Err(BakingError::PngEncodeError(msg)),
    };
    Ok(encode_b64(out.as_slice()))
}

/// Reads back the credential baked into the base64-encoded PNG image
/// `image_data_b64`; `Ok(None)` where no text chunk has the credential keyword.
pub fn extract_png_impl(image_data_b64: &str) -> (r: Result<Option<String>, BakingError>)
    ensures
        match b64_decode(image_data_b64@) {
            None => r matches Err(BakingError::Base64Error(_)),
            Some(bytes) => match png_info_of(bytes) {
                None => r matches Err(BakingError::PngDecodeError(_)),
                Some(info) => match extracted_png(info) {
                    Ok(None) => r matches Ok(None),
                    Ok(Some(t)) => r matches Ok(Some(s)) && s@ == t,
                    Err(_) => r matches Err(BakingError::PngDecodeError(_)),
                },
            },
        },
        b64_decode(image_data_b64@) matches Some(bytes) ==> (png_info_of(bytes) matches Some(info)
            ==> forall|i: int|
            0 <= i < info.latin1.len() ==> (#[trigger] info.latin1[i]).text is Some),
{
    let bytes = match decode_b64(image_data_b64) {
        Ok(b) => b,
        Err(msg) => return Err(BakingError::Base64Error(msg)),
    };
    let info = match read_png_info(bytes.as_slice()) {
        Ok(i) => i,
        Err(msg) => return Err(BakingError::PngDecodeError(msg)),
    };
    find_credential(&info)
}

/// An image without a credential chunk yields no credential: extraction
/// reports absence, not failure.
pub proof fn lemma_png_absent_not_failure(info: RasterInfoView)
    requires
        !has_credential(info),
    ensures
        extracted_png(info) == Ok::<Option<Seq<char>>, ()>(None),
{
}

} // verus!
