use badge_baking::{bake_png_impl, extract_png_impl, find_credential, holds_credential, BakingError, RasterInfo, TextUnit};
use base64::Engine;

fn b64(bytes: &[u8]) -> String {
    base64::engine::general_purpose::STANDARD.encode(bytes)
}

fn unb64(text: &str) -> Vec<u8> {
    base64::engine::general_purpose::STANDARD.decode(text).unwrap()
}

const PIXELS: [u8; 12] = [255, 0, 0, 0, 255, 0, 0, 0, 255, 10, 20, 30];

/// A 2x2 RGB image, with the given tEXt chunks.
fn small_png(latin1: &[(&str, &str)]) -> Vec<u8> {
    let mut out = Vec::new();
    {
        let mut enc = png::Encoder::new(&mut out, 2, 2);
        enc.set_color(png::ColorType::Rgb);
        enc.set_depth(png::BitDepth::Eight);
        for (k, t) in latin1 {
            enc.add_text_chunk(k.to_string(), t.to_string()).unwrap();
        }
        let mut w = enc.write_header().unwrap();
        w.write_image_data(&PIXELS).unwrap();
    }
    out
}

fn frame_of(bytes: &[u8]) -> (png::ColorType, png::BitDepth, u32, u32, Vec<u8>) {
    let mut reader = png::Decoder::new(std::io::Cursor::new(bytes)).read_info().unwrap();
    let mut buf = vec![0; reader.output_buffer_size()];
    let info = reader.next_frame(&mut buf).unwrap();
    buf.truncate(info.buffer_size());
    (info.color_type, info.bit_depth, info.width, info.height, buf)
}

const CREDENTIAL: &str = r#"{"id":"https://example.com/badge","type":["VerifiableCredential","OpenBadgeCredential"]}"#;

#[test]
fn png_round_trip() {
    let image = b64(&small_png(&[]));
    let baked = bake_png_impl(&image, CREDENTIAL, false).unwrap();
    assert_ne!(baked, image);
    assert_eq!(extract_png_impl(&baked).unwrap(), Some(CREDENTIAL.to_string()));
}

#[test]
fn png_bake_keeps_pixels_and_header() {
    let plain = small_png(&[("Title", "badge")]);
    let baked = unb64(&bake_png_impl(&b64(&plain), CREDENTIAL, false).unwrap());
    assert_eq!(frame_of(&baked), frame_of(&plain));
    assert_eq!(frame_of(&baked).4, PIXELS.to_vec());
}

#[test]
fn png_credential_is_an_itxt_chunk() {
    let baked = unb64(&bake_png_impl(&b64(&small_png(&[])), CREDENTIAL, false).unwrap());
    let reader = png::Decoder::new(std::io::Cursor::new(&baked)).read_info().unwrap();
    let chunks = &reader.info().utf8_text;
    assert_eq!(chunks.len(), 1);
    assert_eq!(chunks[0].keyword, "openbadgecredential");
    assert_eq!(chunks[0].get_text().unwrap(), CREDENTIAL);
}

#[test]
fn png_without_credential_is_absent() {
    let image = b64(&small_png(&[("Title", "badge")]));
    assert_eq!(extract_png_impl(&image).unwrap(), None);
}

#[test]
fn png_second_bake_without_overwrite_is_refused() {
    let baked = bake_png_impl(&b64(&small_png(&[])), CREDENTIAL, false).unwrap();
    assert!(matches!(bake_png_impl(&baked, "{}", false), Err(BakingError::CredentialExists)));
}

#[test]
fn png_latin1_credential_counts_as_existing() {
    let image = b64(&small_png(&[("openbadgecredential", "{\"old\":1}")]));
    assert!(matches!(bake_png_impl(&image, "{}", false), Err(BakingError::CredentialExists)));
    assert_eq!(extract_png_impl(&image).unwrap(), Some("{\"old\":1}".to_string()));
}

#[test]
fn png_double_overwrite_keeps_the_latest() {
    let once = bake_png_impl(&b64(&small_png(&[])), r#"{"id":"first"}"#, true).unwrap();
    let twice = bake_png_impl(&once, r#"{"id":"second"}"#, true).unwrap();
    assert_eq!(extract_png_impl(&twice).unwrap(), Some(r#"{"id":"second"}"#.to_string()));
}

#[test]
fn png_invalid_json_is_refused_before_decoding() {
    let result = bake_png_impl("not base64 at all!", "{not valid json", false);
    assert!(matches!(result, Err(BakingError::InvalidJson(_))));
}

#[test]
fn png_bad_base64() {
    assert!(matches!(bake_png_impl("@@@", "{}", false), Err(BakingError::Base64Error(_))));
    assert!(matches!(extract_png_impl("@@@"), Err(BakingError::Base64Error(_))));
}

#[test]
fn png_bad_container() {
    let junk = b64(b"this is not a png file");
    assert!(matches!(bake_png_impl(&junk, "{}", false), Err(BakingError::PngDecodeError(_))));
    assert!(matches!(extract_png_impl(&junk), Err(BakingError::PngDecodeError(_))));
}

#[test]
fn png_truncated_pixel_data() {
    let full = small_png(&[]);
    let cut = &full[..full.len() - 20];
    assert!(matches!(bake_png_impl(&b64(cut), "{}", false), Err(BakingError::PngDecodeError(_))));
}

fn unit(keyword: &str, text: &str) -> TextUnit {
    TextUnit::new(&keyword.to_string(), Some(text.to_string()))
}

fn info_with(international: Vec<TextUnit>, latin1: Vec<TextUnit>, latin1_compressed: Vec<TextUnit>) -> RasterInfo {
    RasterInfo {
        width: 1,
        height: 1,
        color: png::ColorType::Rgb,
        depth: png::BitDepth::Eight,
        international,
        latin1,
        latin1_compressed,
    }
}

#[test]
fn find_credential_prefers_itxt() {
    let info = info_with(
        vec![unit("other", "x"), unit("openbadgecredential", "from itxt")],
        vec![unit("openbadgecredential", "from text")],
        vec![unit("openbadgecredential", "from ztxt")],
    );
    assert!(holds_credential(&info));
    assert_eq!(find_credential(&info).unwrap(), Some("from itxt".to_string()));
}

#[test]
fn find_credential_then_text_then_ztxt() {
    let info = info_with(vec![], vec![unit("x", "y")], vec![unit("openbadgecredential", "from ztxt")]);
    assert_eq!(find_credential(&info).unwrap(), Some("from ztxt".to_string()));
    let info = info_with(vec![], vec![unit("openbadgecredential", "from text")], vec![unit("openbadgecredential", "z")]);
    assert_eq!(find_credential(&info).unwrap(), Some("from text".to_string()));
}

#[test]
fn find_credential_absent_and_unreadable() {
    let info = info_with(vec![unit("OpenBadgeCredential", "case differs")], vec![], vec![]);
    assert!(!holds_credential(&info));
    assert_eq!(find_credential(&info).unwrap(), None);
    let info = info_with(vec![TextUnit::new(&"openbadgecredential".to_string(), None)], vec![], vec![]);
    assert!(holds_credential(&info));
    assert!(matches!(find_credential(&info), Err(BakingError::PngDecodeError(_))));
}

#[test]
fn png_indexed_image_keeps_palette_and_transparency() {
    let palette = vec![255u8, 0, 0, 0, 0, 255];
    let trns = vec![128u8, 255];
    let mut plain = Vec::new();
    {
        let mut enc = png::Encoder::new(&mut plain, 4, 1);
        enc.set_color(png::ColorType::Indexed);
        enc.set_depth(png::BitDepth::Eight);
        enc.set_palette(palette.clone());
        enc.set_trns(trns.clone());
        let mut w = enc.write_header().unwrap();
        w.write_image_data(&[0, 1, 1, 0]).unwrap();
    }
    let baked = unb64(&bake_png_impl(&b64(&plain), CREDENTIAL, false).unwrap());
    let reader = png::Decoder::new(std::io::Cursor::new(&baked)).read_info().unwrap();
    assert_eq!(reader.info().palette.as_deref(), Some(&palette[..]));
    assert_eq!(reader.info().trns.as_deref(), Some(&trns[..]));
    assert_eq!(frame_of(&baked), frame_of(&plain));
    assert_eq!(extract_png_impl(&b64(&baked)).unwrap(), Some(CREDENTIAL.to_string()));
}

#[test]
fn png_latin1_text_with_high_bytes_is_extracted() {
    let image = b64(&small_png(&[("openbadgecredential", "{\"n\":\"café ±\"}")]));
    assert_eq!(extract_png_impl(&image).unwrap(), Some("{\"n\":\"café ±\"}".to_string()));
}
