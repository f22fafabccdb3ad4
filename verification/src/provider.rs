//! The font capability: the contract every font-engine adapter fulfills.
//!
//! Every operation is a pure function of the font data and its arguments, so
//! each adapter names its behaviour as spec functions and each executable
//! method is pinned to them. Repeated calls on equal keys therefore return
//! identical results, and the laws every backend owes — the bitmap length
//! agreeing with the metrics, the line height non-decreasing in the size —
//! are proof obligations of the implementation.

use vstd::prelude::*;
use crate::fixed::Fixed;
use crate::types::{Glyph, GlyphKey, Metrics, PixelType, RenderError};

verus! {

/// A font engine adapter: glyph lookup, metrics, rasterization and kerning
/// for one font, stateless with respect to glyph requests.
pub trait FontProvider: Sized {
    /// Well-formedness of the adapter's font data; every operation assumes it.
    spec fn wf(&self) -> bool;

    /// The glyph identifier this font assigns to a character.
    spec fn spec_glyph(&self, c: char) -> Glyph;

    /// The geometry of one glyph at one size, or its typed failure.
    spec fn spec_metrics(&self, key: GlyphKey) -> Result<Metrics, RenderError>;

    /// The coverage bytes `rasterize` returns for a non-failing key.
    spec fn spec_coverage(&self, key: GlyphKey) -> Seq<u8>;

    /// The kerning adjustment between two glyphs, absent when this font
    /// defines no kerning pairs at all.
    spec fn spec_kerning(&self, a: Glyph, b: Glyph, size: Fixed) -> Option<Fixed>;

    /// The nominal line width hint; zero means the backend has none.
    spec fn spec_line_width(&self, size: Fixed) -> Fixed;

    /// The vertical advance between baselines.
    spec fn spec_line_height(&self, size: Fixed) -> Fixed;

    /// The pixel format of rasterized buffers, fixed per font.
    spec fn spec_pixel_type(&self) -> PixelType;

    /// Whether the backend can lay text out top-to-bottom.
    spec fn spec_supports_vertical(&self) -> bool;

    /// The bitmap of every non-failing key has exactly
    /// `metrics.width * metrics.height` bytes: an obligation every adapter
    /// discharges, so callers may compute the stride from the metrics alone.
    proof fn coverage_matches_metrics(&self, key: GlyphKey)
        requires
            self.wf(),
            key.spec_valid(),
            self.spec_metrics(key) is Ok,
        ensures
            self.spec_coverage(key).len() == self.spec_metrics(key)->Ok_0.width
                * self.spec_metrics(key)->Ok_0.height,
    ;

    /// The advances of every non-failing key are non-negative, for
    /// left-to-right and top-to-bottom text: an obligation every adapter
    /// discharges.
    proof fn advances_nonnegative(&self, key: GlyphKey)
        requires
            self.wf(),
            key.spec_valid(),
            self.spec_metrics(key) is Ok,
        ensures
            self.spec_metrics(key)->Ok_0.advance_x.raw >= 0,
            self.spec_metrics(key)->Ok_0.advance_y.raw >= 0,
    ;

    /// For a fixed font the line height never decreases as the size grows:
    /// an obligation every adapter discharges.
    proof fn line_height_monotone(&self, s1: Fixed, s2: Fixed)
        requires
            self.wf(),
            s1.spec_valid_size(),
            s2.spec_valid_size(),
            s1.raw <= s2.raw,
        ensures
            self.spec_line_height(s1).raw <= self.spec_line_height(s2).raw,
    ;

    /// Nominal line width hint at the given size. Callers treat zero as
    /// "not supported", not as a zero-width answer.
    fn line_width(&self, size: Fixed) -> (r: Fixed)
        requires
            self.wf(),
            size.spec_valid_size(),
        ensures
            r == self.spec_line_width(size),
    ;

    /// Vertical advance between baselines at `size`.
    fn line_height(&self, size: Fixed) -> (r: Fixed)
        requires
            self.wf(),
            size.spec_valid_size(),
        ensures
            r == self.spec_line_height(size),
    ;

    /// Whether the backend can lay out text top-to-bottom; a pure capability
    /// flag with no side effect.
    fn supports_vertical(&self) -> (r: bool)
        requires
            self.wf(),
        ensures
            r == self.spec_supports_vertical(),
    ;

    /// The fixed output format of `rasterize`.
    fn pixel_type(&self) -> (r: PixelType)
        requires
            self.wf(),
        ensures
            r == self.spec_pixel_type(),
    ;

    /// Appends one glyph identifier per character of `text`, in input order,
    /// to `out` without clearing it first: no shaping, one glyph per
    /// character.
    fn glyphs(&self, text: &str, out: &mut Vec<Glyph>)
        requires
            self.wf(),
        ensures
            final(out)@ == old(out)@ + text@.map_values(|c: char| self.spec_glyph(c)),
    ;

    /// The geometry of one glyph at one size. Fails with a typed error — not
    /// an abort — when the glyph has no renderable bounding box, and the
    /// result is a function of the key alone: equal keys give equal metrics.
    fn metrics(&self, key: GlyphKey) -> (r: Result<Metrics, RenderError>)
        requires
            self.wf(),
            key.spec_valid(),
        ensures
            r == self.spec_metrics(key),
    ;

    /// The coverage bitmap of one glyph at one size: row-major, origin at
    /// the top left, one byte per pixel in `pixel_type`'s format. Fails on
    /// exactly the keys `metrics` fails on, with the same error, and the
    /// bytes are a function of the key alone: equal keys give equal buffers.
    fn rasterize(&self, key: GlyphKey) -> (r: Result<Vec<u8>, RenderError>)
        requires
            self.wf(),
            key.spec_valid(),
        ensures
            match r {
                Ok(buf) => self.spec_metrics(key) is Ok && buf@ == self.spec_coverage(key),
                Err(e) => self.spec_metrics(key) == Err::<Metrics, RenderError>(e),
            },
    ;

    /// Horizontal adjustment between glyph `a` followed by glyph `b` at
    /// `size`; `None` when the font defines no kerning pairs, which is
    /// distinct from an adjustment of exactly zero. Nothing here assumes the
    /// relation symmetric: `a` before `b` and `b` before `a` may differ.
    fn kerning(&self, a: Glyph, b: Glyph, size: Fixed) -> (r: Option<Fixed>)
        requires
            self.wf(),
            size.spec_valid_size(),
        ensures
            r == self.spec_kerning(a, b, size),
    ;
}

/// Determinism, demonstrated: two `metrics` calls and two `rasterize` calls
/// on one key return equal results, for every adapter, because each call is
/// pinned to a spec function of the key alone.
pub fn repeat_queries<F: FontProvider>(font: &F, key: GlyphKey) -> (r: (
    Result<Metrics, RenderError>,
    Result<Metrics, RenderError>,
    Result<Vec<u8>, RenderError>,
    Result<Vec<u8>, RenderError>,
))
    requires
        font.wf(),
        key.spec_valid(),
    ensures
        r.0 == r.1,
        r.2 is Ok <==> r.3 is Ok,
        (r.2 is Ok && r.3 is Ok) ==> r.2->Ok_0@ == r.3->Ok_0@,
        (r.2 is Err && r.3 is Err) ==> r.2->Err_0 == r.3->Err_0,
{
    let m1 = font.metrics(key);
    let m2 = font.metrics(key);
    let b1 = font.rasterize(key);
    let b2 = font.rasterize(key);
    (m1, m2, b1, b2)
}

} // verus!
