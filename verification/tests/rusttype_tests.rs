use fontcap::rusttype_backend::glyphs_from_font;
use fontcap::types::Glyph;

fn push_u32(v: &mut Vec<u8>, x: u32) {
    v.extend_from_slice(&x.to_be_bytes());
}

fn push_u16(v: &mut Vec<u8>, x: u16) {
    v.extend_from_slice(&x.to_be_bytes());
}

fn push_i16(v: &mut Vec<u8>, x: i16) {
    v.extend_from_slice(&x.to_be_bytes());
}

// The smallest font rusttype parses: a table directory with head, hhea and
// maxp. It has one glyph and no character map, so every character resolves
// to glyph zero.
fn minimal_font_bytes() -> Vec<u8> {
    let mut d = Vec::new();
    // Offset table.
    push_u32(&mut d, 0x0001_0000);
    push_u16(&mut d, 3); // table count
    push_u16(&mut d, 0);
    push_u16(&mut d, 0);
    push_u16(&mut d, 0);
    // Table records, sorted by tag.
    d.extend_from_slice(b"head");
    push_u32(&mut d, 0);
    push_u32(&mut d, 60);
    push_u32(&mut d, 54);
    d.extend_from_slice(b"hhea");
    push_u32(&mut d, 0);
    push_u32(&mut d, 114);
    push_u32(&mut d, 36);
    d.extend_from_slice(b"maxp");
    push_u32(&mut d, 0);
    push_u32(&mut d, 150);
    push_u32(&mut d, 6);
    // head, 54 bytes.
    push_u32(&mut d, 0x0001_0000); // version
    push_u32(&mut d, 0); // revision
    push_u32(&mut d, 0); // checksum adjustment
    push_u32(&mut d, 0x5F0F_3CF5); // magic
    push_u16(&mut d, 0); // flags
    push_u16(&mut d, 64); // units per em
    d.extend_from_slice(&[0u8; 16]); // created + modified
    push_i16(&mut d, 0); // x min
    push_i16(&mut d, 0); // y min
    push_i16(&mut d, 0); // x max
    push_i16(&mut d, 0); // y max
    push_u16(&mut d, 0); // mac style
    push_u16(&mut d, 0); // lowest rec ppem
    push_i16(&mut d, 0); // font direction hint
    push_u16(&mut d, 0); // index to location format
    push_u16(&mut d, 0); // glyph data format
    // hhea, 36 bytes.
    push_u32(&mut d, 0x0001_0000); // version
    push_i16(&mut d, 50); // ascender
    push_i16(&mut d, -14); // descender
    push_i16(&mut d, 4); // line gap
    d.extend_from_slice(&[0u8; 24]); // advance width max .. metric format
    push_u16(&mut d, 1); // number of metrics
    // maxp, 6 bytes.
    push_u32(&mut d, 0x0000_5000); // version
    push_u16(&mut d, 1); // glyph count
    d
}

#[test]
fn glyph_ids_resolve_through_a_real_font() {
    let font = rusttype::Font::try_from_vec(minimal_font_bytes()).expect("font should parse");
    let mut out = vec![Glyph { id: 3 }];
    glyphs_from_font(&font, "ab", &mut out);
    assert_eq!(out.len(), 1 + "ab".chars().count());
    assert_eq!(out[0], Glyph { id: 3 });
    // No character map: every character resolves to glyph zero.
    assert_eq!(out[1], Glyph { id: 0 });
    assert_eq!(out[2], Glyph { id: 0 });
}

#[test]
fn glyphs_preserve_existing_entries() {
    let font = rusttype::Font::try_from_vec(minimal_font_bytes()).expect("font should parse");
    let mut out = Vec::new();
    glyphs_from_font(&font, "", &mut out);
    assert!(out.is_empty());
    glyphs_from_font(&font, "xyz", &mut out);
    assert_eq!(out.len(), 3);
    assert!(out.iter().all(|g| g.id < 65536));
}
