//! The data model of the capability interface: glyph identifiers, addressing
//! keys, metrics records, pixel formats and the typed per-glyph failure.

use vstd::prelude::*;
use crate::fixed::Fixed;

verus! {

/// A backend-specific glyph identifier: an opaque integer handle, copyable,
/// equal exactly when the identifiers are equal. It is only meaningful
/// against the font it was produced from.
#[derive(Clone, Copy, PartialEq, Eq, Structural, Debug, Hash)]
pub struct Glyph {
    pub id: u32,
}

/// The addressing key for metrics and rasterization: a glyph together with a
/// rendering size. Equal keys always yield identical metrics and identical
/// bitmap bytes.
#[derive(Clone, Copy, PartialEq, Eq, Structural, Debug)]
pub struct GlyphKey {
    pub glyph: Glyph,
    pub size: Fixed,
}

impl GlyphKey {
    /// A key is valid when its size is a valid rendering size: strictly
    /// positive and within the range the pipeline handles.
    pub open spec fn spec_valid(self) -> bool {
        self.size.spec_valid_size()
    }

    /// Runtime test of `spec_valid`.
    pub fn valid(&self) -> (r: bool)
        ensures
            r == self.spec_valid(),
    {
        self.size.valid_size()
    }

    pub fn new(glyph: Glyph, size: Fixed) -> (r: GlyphKey)
        ensures
            r.glyph == glyph,
            r.size == size,
    {
        GlyphKey { glyph, size }
    }

    /// The rendering size this key addresses.
    pub fn size(&self) -> (r: Fixed)
        ensures
            r == self.size,
    {
        self.size
    }
}

/// The pixel format of the buffers a backend rasterizes into; fixed per font
/// instance, not per glyph.
#[derive(Clone, Copy, PartialEq, Eq, Structural, Debug)]
pub enum PixelType {
    /// One coverage/alpha byte per pixel.
    Alpha,
    /// Three bytes per pixel, for color glyphs.
    Rgb,
}

/// The geometric description of one glyph at one size: the origin offset and
/// pixel dimensions of its bitmap, and its horizontal and vertical spacing in
/// fixed-point pixel units.
#[derive(Clone, Copy, PartialEq, Eq, Structural, Debug)]
pub struct Metrics {
    /// Horizontal origin offset of the bitmap, pixels.
    pub x: i32,
    /// Vertical origin offset of the bitmap, pixels.
    pub y: i32,
    /// Bitmap width in pixels: exactly the row length of `rasterize`'s buffer.
    pub width: u32,
    /// Bitmap height in pixels: exactly the row count of `rasterize`'s buffer.
    pub height: u32,
    /// Left side bearing.
    pub bearing_x: Fixed,
    /// Horizontal advance; non-negative for left-to-right text.
    pub advance_x: Fixed,
    /// Top side bearing.
    pub bearing_y: Fixed,
    /// Vertical advance; non-negative for top-to-bottom text.
    pub advance_y: Fixed,
}

/// The typed per-glyph failure of `metrics` and `rasterize`. A failing glyph
/// must not abort a whole string: callers substitute a fallback glyph and go
/// on. The two causes a missing bounding box can have are kept apart so that
/// callers can tell them apart programmatically.
#[derive(Clone, Copy, PartialEq, Eq, Structural, Debug)]
pub enum RenderError {
    /// The glyph exists but has no drawable outline (whitespace and other
    /// intentionally empty glyphs).
    EmptyOutline,
    /// The identifier does not name a glyph of this font.
    InvalidGlyph,
}

} // verus!
