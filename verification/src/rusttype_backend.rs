//! Character-to-glyph resolution against a rusttype font: the one engine
//! call of that backend whose values are plain integers, wrapped so that the
//! glyph-sequence contract of the interface is verified over it.

use vstd::prelude::*;
use crate::types::Glyph;

verus! {

/// rusttype's font handle, declared so that verified code can pass it
/// through to the lookup below.
#[verifier::external_type_specification]
#[verifier::external_body]
pub struct ExFont<'a>(rusttype::Font<'a>);

/// Relies on rusttype's `IntoGlyphId` for `char`: a character-map lookup
/// returning the font's 16-bit glyph index, with unmapped characters
/// resolving to glyph zero. It reads only the font's tables and never
/// panics.
#[verifier::external_body]
fn glyph_id_for_char(font: &rusttype::Font<'_>, c: char) -> (g: Glyph)
    ensures
        g.id < 65536,
{
    let gid = rusttype::IntoGlyphId::into_glyph_id(c, font);
    Glyph { id: gid.0 as u32 }
}

/// Appends one glyph identifier per character of `text`, in input order,
/// each resolved through the font's character map; nothing already in `out`
/// moves, and every appended identifier is a 16-bit glyph index.
pub fn glyphs_from_font(font: &rusttype::Font<'_>, text: &str, out: &mut Vec<Glyph>)
    ensures
        final(out)@.len() == old(out)@.len() + text@.len(),
        forall|k: int| 0 <= k < old(out)@.len() ==> final(out)@[k] == old(out)@[k],
        forall|k: int|
            old(out)@.len() <= k < final(out)@.len() ==> (#[trigger] final(out)@[k]).id < 65536,
{
    let ghost out0: Seq<Glyph> = out@;
    let n = text.unicode_len();
    let mut i: usize = 0;
    while i < n
        invariant
            i <= n,
            n == text@.len(),
            out@.len() == out0.len() + i,
            forall|k: int| 0 <= k < out0.len() ==> out@[k] == out0[k],
            forall|k: int| out0.len() <= k < out@.len() ==> (#[trigger] out@[k]).id < 65536,
        decreases n - i,
    {
        let c = text.get_char(i);
        let g = glyph_id_for_char(font, c);
        out.push(g);
        i = i + 1;
    }
}

} // verus!
