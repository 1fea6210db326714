use sfnt_reader::cursor::ByteCursor;
use sfnt_reader::directory::{tag_code, TableDirectory};
use sfnt_reader::error::FontError;
use sfnt_reader::flag_bit::FlagBits;
use sfnt_reader::font::parse_font;
use sfnt_reader::glyph::{read_glyph_outlines, GlyphBody};
use sfnt_reader::maxp::MaximumProfile;

fn put_u16(v: &mut Vec<u8>, x: u16) {
    v.push((x >> 8) as u8);
    v.push(x as u8);
}

fn put_u32(v: &mut Vec<u8>, x: u32) {
    v.push((x >> 24) as u8);
    v.push((x >> 16) as u8);
    v.push((x >> 8) as u8);
    v.push(x as u8);
}

fn put_i16(v: &mut Vec<u8>, x: i16) {
    put_u16(v, x as u16);
}

/// A synthetic 2-table font: `maxp` announcing 3 glyphs right after the
/// directory, then `glyf` holding one simple glyph and two composite
/// placeholders.
fn two_table_font() -> Vec<u8> {
    let mut v = Vec::new();
    put_u32(&mut v, 0x0001_0000);
    put_u16(&mut v, 2); // two tables
    put_u16(&mut v, 32);
    put_u16(&mut v, 1);
    put_u16(&mut v, 0);
    // record 1, bytes 12..28: maxp at offset 44
    put_u32(&mut v, tag_code(b'm', b'a', b'x', b'p'));
    put_u32(&mut v, 0);
    put_u32(&mut v, 44);
    put_u32(&mut v, 6);
    // record 2, bytes 28..44: glyf at offset 50
    put_u32(&mut v, tag_code(b'g', b'l', b'y', b'f'));
    put_u32(&mut v, 0);
    put_u32(&mut v, 50);
    put_u32(&mut v, 39);
    // maxp, bytes 44..50: version 0.5, three glyphs
    put_u16(&mut v, 0);
    put_u16(&mut v, 5);
    put_u16(&mut v, 3);
    // glyph 0, bytes 50..69: one contour, bbox (0, 0, 100, 100)
    put_i16(&mut v, 1);
    put_i16(&mut v, 0);
    put_i16(&mut v, 0);
    put_i16(&mut v, 100);
    put_i16(&mut v, 100);
    put_i16(&mut v, 5); // the single contour end point
    put_u16(&mut v, 0); // no instructions
    v.push(0b0000_0001); // flags: on-curve only
    put_u16(&mut v, 10); // x
    put_u16(&mut v, 20); // y
    // glyphs 1 and 2, ten bytes each: composite placeholders
    for _ in 0..2 {
        put_i16(&mut v, -1);
        for _ in 0..4 {
            put_i16(&mut v, 0);
        }
    }
    v
}

#[test]
fn two_table_font_parses_end_to_end() {
    let font = parse_font(two_table_font()).unwrap();
    assert_eq!(font.directory.num_tables, 2);
    assert_eq!(font.profile.major_version, 0);
    assert_eq!(font.profile.minor_version, 5);
    assert_eq!(font.profile.num_glyphs, 3);
    assert_eq!(font.profile.version_tenths(), 5);
    assert_eq!(font.glyphs.len(), 3);
    let g = &font.glyphs[0];
    assert_eq!(g.contour_count, 1);
    assert_eq!((g.x_min, g.y_min, g.x_max, g.y_max), (0, 0, 100, 100));
    match &g.body {
        GlyphBody::Simple(s) => {
            assert_eq!(s.contour_end_points, vec![5]);
            assert_eq!(s.instruction_length, 0);
            assert_eq!(s.x_coordinate, 10);
            assert_eq!(s.y_coordinate, 20);
            assert!(FlagBits::is_bit_active(s.flags, 0));
            for i in 1u8..8 {
                assert!(!FlagBits::is_bit_active(s.flags, i));
            }
        },
        GlyphBody::Composite(_) => panic!("glyph 0 classified as composite"),
    }
    assert!(matches!(font.glyphs[1].body, GlyphBody::Composite(_)));
    assert!(matches!(font.glyphs[2].body, GlyphBody::Composite(_)));
}

#[test]
fn maxp_reader_reads_at_the_recorded_offset() {
    let bytes = two_table_font();
    let mut c = ByteCursor::new(bytes);
    let d = TableDirectory::parse(&mut c).unwrap();
    let p = MaximumProfile::read(&d, &mut c).unwrap();
    assert_eq!(p.num_glyphs, 3);
    assert_eq!(c.current_position(), 50);
}

#[test]
fn missing_maxp_is_table_not_found() {
    let mut bytes = two_table_font();
    // rename the maxp record so the required tag is absent
    bytes[12] = b'n';
    assert_eq!(parse_font(bytes).unwrap_err(), FontError::TableNotFound);
}

#[test]
fn missing_glyf_is_table_not_found() {
    let mut bytes = two_table_font();
    bytes[28] = b'h';
    assert_eq!(parse_font(bytes).unwrap_err(), FontError::TableNotFound);
}

#[test]
fn maxp_offset_past_the_end_is_invalid_offset() {
    let mut bytes = two_table_font();
    // the maxp record's offset field sits at bytes 20..24
    bytes[22] = 0x10;
    assert_eq!(parse_font(bytes).unwrap_err(), FontError::InvalidOffset);
}

#[test]
fn glyf_offset_past_the_end_is_invalid_offset() {
    let mut bytes = two_table_font();
    // the glyf record's offset field sits at bytes 36..40
    bytes[38] = 0x10;
    assert_eq!(parse_font(bytes).unwrap_err(), FontError::InvalidOffset);
}

#[test]
fn font_cut_anywhere_is_truncated_input() {
    let whole = two_table_font();
    for len in 0..whole.len() {
        assert_eq!(
            parse_font(whole[..len].to_vec()).unwrap_err(),
            FontError::TruncatedInput,
            "font cut at byte {len}"
        );
    }
}

#[test]
fn glyph_scan_aborts_on_the_first_short_record() {
    let bytes = two_table_font();
    // keep the directory and maxp whole, cut the last glyph in half
    let cut = bytes[..bytes.len() - 5].to_vec();
    let mut c = ByteCursor::new(cut);
    let d = TableDirectory::parse(&mut c).unwrap();
    let p = MaximumProfile::read(&d, &mut c).unwrap();
    assert_eq!(
        read_glyph_outlines(&d, &mut c, p.num_glyphs).unwrap_err(),
        FontError::TruncatedInput
    );
}

#[test]
fn version_tenths_composes_major_and_minor() {
    let p = MaximumProfile { major_version: 1, minor_version: 0, num_glyphs: 0 };
    assert_eq!(p.version_tenths(), 10);
    let q = MaximumProfile { major_version: 2, minor_version: 5, num_glyphs: 0 };
    assert_eq!(q.version_tenths(), 25);
}
