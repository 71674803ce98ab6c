//! Parser behaviour on both header variants and every error path.

use psf::Error;
use psf::Font;

/// A 32-byte extended-variant header with the given glyph count, width and
/// height; the unused fields are zero.
fn v2_header(count: u16, width: u8, height: u8) -> Vec<u8> {
    vec![
        0x72, 0xb5, 0x4a, 0x86, // magic
        0, 0, 0, 0, // version 0
        0x20, 0, 0, 0, // glyph data offset
        0, 0, 0, 0, // flags
        (count & 0xff) as u8,
        (count >> 8) as u8,
        0,
        0, // declared count-of-bytes field
        0,
        0,
        0,
        0, // per-glyph byte size
        height,
        0,
        0,
        0,
        width,
        0,
        0,
        0,
    ]
}

#[test]
fn variant1_minimal_header() {
    let data = [0x36u8, 0x04, 0x00, 0x10];
    let font = Font::parse_font_data(&data).unwrap();
    assert_eq!(font.size(), 256);
    assert_eq!(font.width(), 8);
    assert_eq!(font.height(), 0x10);
}

#[test]
fn variant1_count_selector_table() {
    let expected = [(0u8, 256usize), (1, 512), (2, 256), (3, 512)];
    for &(selector, count) in expected.iter() {
        let data = [0x36u8, 0x04, selector, 1];
        let font = Font::parse_font_data(&data).unwrap();
        assert_eq!(font.size(), count);
    }
}

#[test]
fn variant2_header_fields() {
    let mut data = v2_header(2, 10, 3);
    data.extend(std::iter::repeat(0u8).take(2 * 3 * 2));
    let font = Font::parse_font_data(&data).unwrap();
    assert_eq!(font.size(), 2);
    assert_eq!(font.width(), 10);
    assert_eq!(font.height(), 3);
}

#[test]
fn variant2_height_width_truncated_to_low_byte() {
    let mut data = v2_header(1, 9, 7);
    // The height and width fields are 32 bits wide, but only their low
    // byte is kept.
    data[25] = 0xff;
    data[29] = 0x01;
    let font = Font::parse_font_data(&data).unwrap();
    assert_eq!(font.height(), 7);
    assert_eq!(font.width(), 9);
}

#[test]
fn empty_buffer_is_rejected() {
    let data: [u8; 0] = [];
    let err = Font::parse_font_data(&data).unwrap_err();
    assert!(matches!(err, Error::InvalidFontFormat(m) if m == "Empty"));
}

#[test]
fn unknown_mode_byte_is_rejected() {
    let data = [0x99u8, 0x04, 0x00, 0x10];
    let err = Font::parse_font_data(&data).unwrap_err();
    assert!(matches!(err, Error::InvalidFontFormat(m) if m == "invalid mode"));
}

#[test]
fn variant1_short_buffer_is_rejected() {
    let data = [0x36u8, 0x04, 0x00];
    let err = Font::parse_font_data(&data).unwrap_err();
    assert!(matches!(err, Error::InvalidFontFormat(m) if m == "mode 1, too small"));
}

#[test]
fn variant1_bad_magic_is_rejected() {
    let data = [0x36u8, 0x05, 0x00, 0x10];
    let err = Font::parse_font_data(&data).unwrap_err();
    assert!(matches!(err, Error::InvalidFontFormat(m) if m == "mode 1, magic number"));
}

#[test]
fn variant1_bad_count_selector_is_rejected() {
    let data = [0x36u8, 0x04, 0x04, 0x10];
    let err = Font::parse_font_data(&data).unwrap_err();
    assert!(matches!(err, Error::InvalidFontFormat(m) if m == "mode 1, invalid count"));
}

#[test]
fn variant2_short_buffer_is_rejected() {
    let data = [0x72u8, 0xb5, 0x4a, 0x86, 0, 0, 0, 0];
    let err = Font::parse_font_data(&data).unwrap_err();
    assert!(matches!(err, Error::InvalidFontFormat(m) if m == "mode != 1, too small"));
}

#[test]
fn variant2_bad_magic_is_rejected() {
    let mut data = v2_header(1, 8, 1);
    data[3] = 0x87;
    let err = Font::parse_font_data(&data).unwrap_err();
    assert!(matches!(err, Error::InvalidFontFormat(m) if m == "mode != 1, magic number"));
}

#[test]
fn variant2_bad_version_is_rejected() {
    let mut data = v2_header(1, 8, 1);
    data[4] = 1;
    let err = Font::parse_font_data(&data).unwrap_err();
    assert!(matches!(err, Error::InvalidFontFormat(m) if m == "mode != 1, version"));
}

#[test]
fn variant2_bad_offset_carries_observed_value() {
    let mut data = v2_header(1, 8, 1);
    data[8] = 0x22;
    data[9] = 0x33;
    data[10] = 0x44;
    data[11] = 0x55;
    let err = Font::parse_font_data(&data).unwrap_err();
    assert!(matches!(err, Error::InvalidOffset(0x55443322)));
}
