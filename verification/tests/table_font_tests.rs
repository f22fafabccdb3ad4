use fontcap::fixed::Fixed;
use fontcap::provider::{repeat_queries, FontProvider};
use fontcap::table_font::{CharMapping, GlyphRecord, KernPair, TableFont};
use fontcap::types::{Glyph, GlyphKey, PixelType, RenderError};

// A 64-units-per-em font whose glyph 1 spans -2..38 x 0..48 font units, so
// that at size 32 its pixel bounding box is exactly 20 x 24 pixels.
fn test_font() -> TableFont {
    TableFont {
        units_per_em: 64,
        ascent: 50,
        descent: -14,
        line_gap: 4,
        char_map: vec![
            CharMapping { ch: 'a', glyph: 1 },
            CharMapping { ch: 'b', glyph: 2 },
        ],
        glyphs: vec![
            GlyphRecord {
                has_outline: true,
                x_min: 0,
                y_min: 0,
                x_max: 32,
                y_max: 32,
                coverage: 128,
                left_side_bearing: 0,
                advance_width: 32,
            },
            GlyphRecord {
                has_outline: true,
                x_min: -2,
                y_min: 0,
                x_max: 38,
                y_max: 48,
                coverage: 255,
                left_side_bearing: 3,
                advance_width: 40,
            },
            GlyphRecord {
                has_outline: false,
                x_min: 0,
                y_min: 0,
                x_max: 0,
                y_max: 0,
                coverage: 0,
                left_side_bearing: 0,
                advance_width: 20,
            },
        ],
        kerning: vec![KernPair { left: 1, right: 2, adjust: 8 }],
    }
}

fn key(id: u32, size: i32) -> GlyphKey {
    GlyphKey::new(Glyph { id }, Fixed::from_int(size))
}

#[test]
fn font_is_well_formed() {
    assert!(test_font().check_wf());
}

#[test]
fn ill_formed_font_is_rejected() {
    let mut font = test_font();
    font.descent = 1;
    assert!(!font.check_wf());
    let mut font2 = test_font();
    font2.glyphs[0].x_min = 40;
    font2.glyphs[0].x_max = 30;
    assert!(!font2.check_wf());
}

#[test]
fn metrics_reports_pixel_box() {
    let font = test_font();
    let m = font.metrics(key(1, 32)).unwrap();
    assert_eq!(m.width, 20);
    assert_eq!(m.height, 24);
    assert_eq!(m.x, -1);
    assert_eq!(m.y, 0);
    // 3 font units at size 32 under 64 units per em: 1.5 pixels.
    assert_eq!(m.bearing_x.raw, 3 * 65536 / 2);
    // 40 font units: 20 pixels exactly.
    assert_eq!(m.advance_x.raw, 20 * 65536);
    assert_eq!(m.bearing_y.raw, 0);
    assert_eq!(m.advance_y.raw, 0);
}

#[test]
fn rasterize_matches_metrics() {
    let font = test_font();
    let m = font.metrics(key(1, 32)).unwrap();
    let buf = font.rasterize(key(1, 32)).unwrap();
    assert_eq!(buf.len(), (m.width * m.height) as usize);
    assert_eq!(buf.len(), 480);
    assert!(buf.iter().all(|&b| b == 255));
}

#[test]
fn repeated_queries_are_identical() {
    let font = test_font();
    let k = key(1, 32);
    assert_eq!(font.metrics(k), font.metrics(k));
    assert_eq!(font.rasterize(k), font.rasterize(k));
    let (m1, m2, b1, b2) = repeat_queries(&font, k);
    assert_eq!(m1, m2);
    assert_eq!(b1, b2);
}

#[test]
fn empty_outline_is_a_typed_failure() {
    let font = test_font();
    let empty = font.metrics(key(2, 32));
    assert_eq!(empty, Err(RenderError::EmptyOutline));
    let invalid = font.metrics(key(99, 32));
    assert_eq!(invalid, Err(RenderError::InvalidGlyph));
    assert_ne!(empty, invalid);
    assert_eq!(font.rasterize(key(2, 32)), Err(RenderError::EmptyOutline));
    assert_eq!(font.rasterize(key(99, 32)), Err(RenderError::InvalidGlyph));
}

#[test]
fn glyphs_appends_in_input_order() {
    let font = test_font();
    let mut out = vec![Glyph { id: 7 }];
    font.glyphs("aba", &mut out);
    assert_eq!(out.len(), 1 + "aba".chars().count());
    assert_eq!(
        out,
        vec![Glyph { id: 7 }, Glyph { id: 1 }, Glyph { id: 2 }, Glyph { id: 1 }]
    );
}

#[test]
fn unmapped_character_resolves_to_glyph_zero() {
    let font = test_font();
    let mut out = Vec::new();
    font.glyphs("z", &mut out);
    assert_eq!(out, vec![Glyph { id: 0 }]);
}

#[test]
fn empty_string_appends_nothing() {
    let font = test_font();
    let mut out = vec![Glyph { id: 7 }];
    font.glyphs("", &mut out);
    assert_eq!(out, vec![Glyph { id: 7 }]);
}

#[test]
fn kerning_without_table_is_absent() {
    let mut font = test_font();
    font.kerning = Vec::new();
    let r = font.kerning(Glyph { id: 1 }, Glyph { id: 2 }, Fixed::from_int(16));
    assert_eq!(r, None);
}

#[test]
fn kerning_is_not_assumed_symmetric() {
    let font = test_font();
    let size = Fixed::from_int(16);
    let ab = font.kerning(Glyph { id: 1 }, Glyph { id: 2 }, size);
    let ba = font.kerning(Glyph { id: 2 }, Glyph { id: 1 }, size);
    // 8 font units at size 16 under 64 units per em: 2 pixels.
    assert_eq!(ab, Some(Fixed { raw: 2 * 65536 }));
    // The reverse pair is not in the table: zero adjustment, still present.
    assert_eq!(ba, Some(Fixed { raw: 0 }));
    assert_ne!(ab, ba);
}

#[test]
fn line_height_is_exact_and_monotone() {
    let font = test_font();
    // ascent - descent + line_gap = 68 font units.
    let h8 = font.line_height(Fixed::from_int(8));
    let h16 = font.line_height(Fixed::from_int(16));
    let h32 = font.line_height(Fixed::from_int(32));
    assert_eq!(h8.raw, 68 * 8 * 65536 / 64);
    assert_eq!(h16.raw, 17 * 65536);
    assert_eq!(h32.raw, 34 * 65536);
    assert!(h8.raw <= h16.raw && h16.raw <= h32.raw);
}

#[test]
fn capability_flags() {
    let font = test_font();
    assert_eq!(font.line_width(Fixed::from_int(16)).raw, 0);
    assert!(!font.supports_vertical());
    assert_eq!(font.pixel_type(), PixelType::Alpha);
}

#[test]
fn key_validity() {
    assert!(key(1, 32).valid());
    assert!(!GlyphKey::new(Glyph { id: 1 }, Fixed { raw: 0 }).valid());
    assert!(!GlyphKey::new(Glyph { id: 1 }, Fixed { raw: -65536 }).valid());
    // The largest accepted size is 256 pixels, exactly.
    assert!(GlyphKey::new(Glyph { id: 1 }, Fixed::from_int(256)).valid());
    assert!(!GlyphKey::new(Glyph { id: 1 }, Fixed { raw: 256 * 65536 + 1 }).valid());
    assert_eq!(key(1, 32).size().raw, 32 * 65536);
}
