//! The reference backend: a font held as plain tables — character map, glyph
//! extents and horizontal metrics in font units, vertical metrics and kerning
//! pairs — driven through the verified scale / position / bounding-box
//! pipeline. Each glyph's outline is its extent rectangle filled at one
//! coverage level, so rasterization is exact and deterministic.
//!
//! Extents are bounded by eight em squares and sizes by `MAX_SIZE_RAW`, which
//! keeps every intermediate product inside a machine word.

use vstd::prelude::*;
use vstd::arithmetic::div_mod::lemma_div_pos_is_pos;
use crate::fixed::{
    ceil_px_spec, floor_px_spec, lemma_floor_le_ceil, lemma_px_bounds, lemma_scale_monotone_size,
    lemma_scale_monotone_units, lemma_scale_spec_bound, pixel_span, scale_spec, scale_units, Fixed,
};
use crate::pipeline::filled_buffer;
use crate::provider::FontProvider;
use crate::types::{Glyph, GlyphKey, Metrics, PixelType, RenderError};

verus! {

/// One glyph of a table font: outline extents, horizontal metrics and a
/// uniform coverage level, all in font units.
#[derive(Clone, Copy, PartialEq, Eq, Structural, Debug)]
pub struct GlyphRecord {
    /// Whether the glyph has a drawable outline; glyphs such as spaces have
    /// none and fail `metrics` and `rasterize` with `EmptyOutline`.
    pub has_outline: bool,
    /// Lowest covered x coordinate, font units.
    pub x_min: i32,
    /// Lowest covered y coordinate, font units.
    pub y_min: i32,
    /// Highest covered x coordinate, font units.
    pub x_max: i32,
    /// Highest covered y coordinate, font units.
    pub y_max: i32,
    /// Coverage level the extent rectangle is filled at.
    pub coverage: u8,
    /// Left side bearing, font units.
    pub left_side_bearing: i32,
    /// Horizontal advance, font units; non-negative.
    pub advance_width: i32,
}

impl GlyphRecord {
    /// The record's measures lie within eight em squares and its extents are
    /// ordered.
    pub open spec fn wf(self, upem: int) -> bool {
        &&& -(8 * upem) <= self.x_min <= self.x_max <= 8 * upem
        &&& -(8 * upem) <= self.y_min <= self.y_max <= 8 * upem
        &&& -(8 * upem) <= self.left_side_bearing <= 8 * upem
        &&& 0 <= self.advance_width <= 8 * upem
    }
}

/// One kerning pair: the adjustment, in font units, between `left` followed
/// by `right`.
#[derive(Clone, Copy, PartialEq, Eq, Structural, Debug)]
pub struct KernPair {
    pub left: u32,
    pub right: u32,
    pub adjust: i32,
}

/// One character-map entry: the glyph identifier a character resolves to.
#[derive(Clone, Copy, PartialEq, Eq, Structural, Debug)]
pub struct CharMapping {
    pub ch: char,
    pub glyph: u32,
}

/// A font described entirely by tables, backing the capability interface
/// with exact integer data.
pub struct TableFont {
    /// Font units per em square; at least one.
    pub units_per_em: u16,
    /// Ascent above the baseline, font units; non-negative.
    pub ascent: i32,
    /// Descent below the baseline, font units; non-positive.
    pub descent: i32,
    /// Gap between lines, font units; non-negative.
    pub line_gap: i32,
    /// Character map; the first entry for a character wins, unmapped
    /// characters resolve to glyph zero.
    pub char_map: Vec<CharMapping>,
    /// The glyphs, indexed by identifier.
    pub glyphs: Vec<GlyphRecord>,
    /// Kerning pairs; the first entry for a pair wins, absent pairs adjust
    /// by zero. An empty table means the font defines no kerning at all.
    pub kerning: Vec<KernPair>,
}

impl TableFont {
    /// Font units per em, as a mathematical integer.
    pub open spec fn upem(self) -> int {
        self.units_per_em as int
    }

    /// Well-formedness: positive em square, sign-constrained vertical
    /// metrics, and every record within eight em squares.
    pub open spec fn wf_spec(self) -> bool {
        &&& 1 <= self.units_per_em
        &&& 0 <= self.ascent <= 8 * self.upem()
        &&& -(8 * self.upem()) <= self.descent <= 0
        &&& 0 <= self.line_gap <= 8 * self.upem()
        &&& forall|i: int|
            0 <= i < self.glyphs@.len() ==> (#[trigger] self.glyphs@[i]).wf(self.upem())
        &&& forall|i: int|
            0 <= i < self.kerning@.len() ==> -(8 * self.upem())
                <= (#[trigger] self.kerning@[i]).adjust <= 8 * self.upem()
    }

    /// A measure in font units scaled to a rendering size.
    pub open spec fn scaled(self, units: int, size: Fixed) -> int {
        scale_spec(units, size.raw as int, self.upem())
    }

    /// The first glyph the character map names for `c`, or glyph zero.
    pub open spec fn char_lookup(m: Seq<CharMapping>, c: char) -> u32
        decreases m.len(),
    {
        if m.len() == 0 {
            0u32
        } else if m[0].ch == c {
            m[0].glyph
        } else {
            Self::char_lookup(m.drop_first(), c)
        }
    }

    /// The first adjustment the kerning table names for the pair, or zero.
    pub open spec fn kern_lookup(t: Seq<KernPair>, a: u32, b: u32) -> i32
        decreases t.len(),
    {
        if t.len() == 0 {
            0i32
        } else if t[0].left == a && t[0].right == b {
            t[0].adjust
        } else {
            Self::kern_lookup(t.drop_first(), a, b)
        }
    }

    /// The metrics of one outline at one size: the pixel bounding box is the
    /// floor of the scaled low extents and the ceiling of the scaled high
    /// extents; the vertical measures are zero, as this backend lays out no
    /// vertical text.
    pub open spec fn outline_metrics(self, g: GlyphRecord, size: Fixed) -> Metrics {
        Metrics {
            x: floor_px_spec(self.scaled(g.x_min as int, size)) as i32,
            y: floor_px_spec(self.scaled(g.y_min as int, size)) as i32,
            width: (ceil_px_spec(self.scaled(g.x_max as int, size)) - floor_px_spec(
                self.scaled(g.x_min as int, size),
            )) as u32,
            height: (ceil_px_spec(self.scaled(g.y_max as int, size)) - floor_px_spec(
                self.scaled(g.y_min as int, size),
            )) as u32,
            bearing_x: Fixed { raw: self.scaled(g.left_side_bearing as int, size) as i64 },
            advance_x: Fixed { raw: self.scaled(g.advance_width as int, size) as i64 },
            bearing_y: Fixed { raw: 0 },
            advance_y: Fixed { raw: 0 },
        }
    }

    /// The dimensions of a well-formed glyph's pixel box at a valid size stay
    /// small: each extent scales to within `2^27` raw units, so each pixel
    /// coordinate is within `2049` and each dimension within `0x2000`.
    pub proof fn lemma_metrics_small(self, key: GlyphKey)
        requires
            self.wf_spec(),
            key.spec_valid(),
            self.spec_metrics(key) is Ok,
        ensures
            self.spec_metrics(key)->Ok_0.width <= 0x2000,
            self.spec_metrics(key)->Ok_0.height <= 0x2000,
            self.spec_metrics(key)->Ok_0.width * self.spec_metrics(key)->Ok_0.height
                <= 0x1000_0000,
    {
        let g = self.glyphs@[key.glyph.id as int];
        assert(g.wf(self.upem()));
        self.lemma_span_small(g.x_min as int, g.x_max as int, key.size);
        self.lemma_span_small(g.y_min as int, g.y_max as int, key.size);
        let m = self.spec_metrics(key)->Ok_0;
        assert(m.width * m.height <= 0x1000_0000) by (nonlinear_arith)
            requires
                0 <= m.width <= 0x2000,
                0 <= m.height <= 0x2000,
        ;
    }

    /// A scaled, ordered extent pair spans a small, non-negative count of
    /// pixels.
    proof fn lemma_span_small(self, lo: int, hi: int, size: Fixed)
        requires
            self.wf_spec(),
            size.spec_valid_size(),
            -(8 * self.upem()) <= lo <= hi <= 8 * self.upem(),
        ensures
            0 <= ceil_px_spec(self.scaled(hi, size)) - floor_px_spec(self.scaled(lo, size))
                <= 0x2000,
    {
        lemma_scale_spec_bound(lo, size.raw as int, self.upem(), 8);
        lemma_scale_spec_bound(hi, size.raw as int, self.upem(), 8);
        lemma_scale_monotone_units(lo, hi, size.raw as int, self.upem());
        lemma_floor_le_ceil(self.scaled(lo, size), self.scaled(hi, size));
        lemma_px_bounds(self.scaled(lo, size));
        lemma_px_bounds(self.scaled(hi, size));
    }

    /// Resolve one character through the character map.
    pub fn glyph_for_char(&self, c: char) -> (g: Glyph)
        ensures
            g == self.spec_glyph(c),
    {
        let m = &self.char_map;
        proof {
            assert(m@.skip(0) =~= m@);
        }
        let mut i: usize = 0;
        while i < m.len()
            invariant
                i <= m@.len(),
                m@ == self.char_map@,
                Self::char_lookup(m@, c) == Self::char_lookup(m@.skip(i as int), c),
            decreases m@.len() - i,
        {
            proof {
                assert(m@.skip(i as int).drop_first() =~= m@.skip(i as int + 1));
                assert(m@.skip(i as int)[0] == m@[i as int]);
            }
            if m[i].ch == c {
                return Glyph { id: m[i].glyph };
            }
            i = i + 1;
        }
        proof {
            assert(m@.skip(m@.len() as int).len() == 0);
        }
        Glyph { id: 0 }
    }

    /// Runtime well-formedness test, for callers that assemble a font from
    /// untrusted tables.
    pub fn check_wf(&self) -> (r: bool)
        ensures
            r == self.wf_spec(),
    {
        if self.units_per_em < 1 {
            return false;
        }
        let bound: i32 = 8 * (self.units_per_em as i32);
        if !(0 <= self.ascent && self.ascent <= bound) {
            return false;
        }
        if !(-bound <= self.descent && self.descent <= 0) {
            return false;
        }
        if !(0 <= self.line_gap && self.line_gap <= bound) {
            return false;
        }
        let mut i: usize = 0;
        while i < self.glyphs.len()
            invariant
                i <= self.glyphs@.len(),
                bound == 8 * self.upem(),
                forall|k: int| 0 <= k < i ==> (#[trigger] self.glyphs@[k]).wf(self.upem()),
            decreases self.glyphs@.len() - i,
        {
            let g = self.glyphs[i];
            if !(-bound <= g.x_min && g.x_min <= g.x_max && g.x_max <= bound) {
                return false;
            }
            if !(-bound <= g.y_min && g.y_min <= g.y_max && g.y_max <= bound) {
                return false;
            }
            if !(-bound <= g.left_side_bearing && g.left_side_bearing <= bound) {
                return false;
            }
            if !(0 <= g.advance_width && g.advance_width <= bound) {
                return false;
            }
            i = i + 1;
        }
        let mut j: usize = 0;
        while j < self.kerning.len()
            invariant
                j <= self.kerning@.len(),
                bound == 8 * self.upem(),
                1 <= self.units_per_em,
                0 <= self.ascent <= 8 * self.upem(),
                -(8 * self.upem()) <= self.descent <= 0,
                0 <= self.line_gap <= 8 * self.upem(),
                forall|k: int|
                    0 <= k < self.glyphs@.len() ==> (#[trigger] self.glyphs@[k]).wf(self.upem()),
                forall|k: int|
                    0 <= k < j ==> -(8 * self.upem()) <= (#[trigger] self.kerning@[k]).adjust <= 8
                        * self.upem(),
            decreases self.kerning@.len() - j,
        {
            let p = self.kerning[j];
            if !(-bound <= p.adjust && p.adjust <= bound) {
                return false;
            }
            j = j + 1;
        }
        true
    }
}

impl FontProvider for TableFont {
    open spec fn wf(&self) -> bool {
        self.wf_spec()
    }

    open spec fn spec_glyph(&self, c: char) -> Glyph {
        Glyph { id: Self::char_lookup(self.char_map@, c) }
    }

    open spec fn spec_metrics(&self, key: GlyphKey) -> Result<Metrics, RenderError> {
        if key.glyph.id as int >= self.glyphs@.len() {
            Err(RenderError::InvalidGlyph)
        } else if !self.glyphs@[key.glyph.id as int].has_outline {
            Err(RenderError::EmptyOutline)
        } else {
            Ok(self.outline_metrics(self.glyphs@[key.glyph.id as int], key.size))
        }
    }

    open spec fn spec_coverage(&self, key: GlyphKey) -> Seq<u8> {
        match self.spec_metrics(key) {
            Ok(m) => Seq::new(
                (m.width * m.height) as nat,
                |i: int| self.glyphs@[key.glyph.id as int].coverage,
            ),
            Err(_) => Seq::empty(),
        }
    }

    open spec fn spec_kerning(&self, a: Glyph, b: Glyph, size: Fixed) -> Option<Fixed> {
        if self.kerning@.len() == 0 {
            None
        } else {
            Some(
                Fixed {
                    raw: self.scaled(
                        Self::kern_lookup(self.kerning@, a.id, b.id) as int,
                        size,
                    ) as i64,
                },
            )
        }
    }

    open spec fn spec_line_width(&self, size: Fixed) -> Fixed {
        Fixed { raw: 0 }
    }

    open spec fn spec_line_height(&self, size: Fixed) -> Fixed {
        Fixed { raw: self.scaled(self.ascent - self.descent + self.line_gap, size) as i64 }
    }

    open spec fn spec_pixel_type(&self) -> PixelType {
        PixelType::Alpha
    }

    open spec fn spec_supports_vertical(&self) -> bool {
        false
    }

    proof fn coverage_matches_metrics(&self, key: GlyphKey) {
    }

    proof fn advances_nonnegative(&self, key: GlyphKey) {
        let g = self.glyphs@[key.glyph.id as int];
        assert(g.wf(self.upem()));
        lemma_scale_spec_bound(g.advance_width as int, key.size.raw as int, self.upem(), 8);
        assert(0 <= (g.advance_width as int) * (key.size.raw as int)) by (nonlinear_arith)
            requires
                0 <= g.advance_width as int,
                0 < key.size.raw as int,
        ;
        lemma_div_pos_is_pos((g.advance_width as int) * (key.size.raw as int), self.upem());
    }

    proof fn line_height_monotone(&self, s1: Fixed, s2: Fixed) {
        let units = self.ascent - self.descent + self.line_gap;
        lemma_scale_monotone_size(units as int, s1.raw as int, s2.raw as int, self.upem());
        lemma_scale_spec_bound(units as int, s1.raw as int, self.upem(), 24);
        lemma_scale_spec_bound(units as int, s2.raw as int, self.upem(), 24);
    }

    /// This backend reports no line width hint.
    fn line_width(&self, size: Fixed) -> (r: Fixed) {
        Fixed { raw: 0 }
    }

    /// Ascent minus descent plus line gap, scaled to the size.
    fn line_height(&self, size: Fixed) -> (r: Fixed) {
        scale_units(self.ascent - self.descent + self.line_gap, size, self.units_per_em)
    }

    /// This backend lays out no vertical text; consistently, the vertical
    /// measures it reports in `Metrics` are zero.
    fn supports_vertical(&self) -> (r: bool) {
        false
    }

    fn pixel_type(&self) -> (r: PixelType) {
        PixelType::Alpha
    }

    fn glyphs(&self, text: &str, out: &mut Vec<Glyph>) {
        let ghost out0: Seq<Glyph> = out@;
        let n = text.unicode_len();
        let mut i: usize = 0;
        while i < n
            invariant
                i <= n,
                n == text@.len(),
                out@ =~= out0 + text@.take(i as int).map_values(|c: char| self.spec_glyph(c)),
            decreases n - i,
        {
            let c = text.get_char(i);
            let g = self.glyph_for_char(c);
            out.push(g);
            proof {
                assert(text@.take(i as int + 1) =~= text@.take(i as int).push(text@[i as int]));
                assert(out@ =~= out0 + text@.take(i as int + 1).map_values(
                    |c: char| self.spec_glyph(c),
                ));
            }
            i = i + 1;
        }
        proof {
            assert(text@.take(n as int) =~= text@);
        }
    }

    fn metrics(&self, key: GlyphKey) -> (r: Result<Metrics, RenderError>) {
        if key.glyph.id as usize >= self.glyphs.len() {
            return Err(RenderError::InvalidGlyph);
        }
        let g = self.glyphs[key.glyph.id as usize];
        if !g.has_outline {
            return Err(RenderError::EmptyOutline);
        }
        proof {
            assert(g.wf(self.upem()));
            lemma_scale_spec_bound(g.x_min as int, key.size.raw as int, self.upem(), 8);
            lemma_scale_spec_bound(g.x_max as int, key.size.raw as int, self.upem(), 8);
            lemma_scale_spec_bound(g.y_min as int, key.size.raw as int, self.upem(), 8);
            lemma_scale_spec_bound(g.y_max as int, key.size.raw as int, self.upem(), 8);
            lemma_scale_monotone_units(
                g.x_min as int,
                g.x_max as int,
                key.size.raw as int,
                self.upem(),
            );
            lemma_scale_monotone_units(
                g.y_min as int,
                g.y_max as int,
                key.size.raw as int,
                self.upem(),
            );
        }
        let sx0 = scale_units(g.x_min, key.size, self.units_per_em);
        let sx1 = scale_units(g.x_max, key.size, self.units_per_em);
        let sy0 = scale_units(g.y_min, key.size, self.units_per_em);
        let sy1 = scale_units(g.y_max, key.size, self.units_per_em);
        let (x, width) = pixel_span(sx0, sx1);
        let (y, height) = pixel_span(sy0, sy1);
        let bearing_x = scale_units(g.left_side_bearing, key.size, self.units_per_em);
        let advance_x = scale_units(g.advance_width, key.size, self.units_per_em);
        Ok(
            Metrics {
                x,
                y,
                width,
                height,
                bearing_x,
                advance_x,
                bearing_y: Fixed { raw: 0 },
                advance_y: Fixed { raw: 0 },
            },
        )
    }

    fn rasterize(&self, key: GlyphKey) -> (r: Result<Vec<u8>, RenderError>) {
        match self.metrics(key) {
            Err(e) => Err(e),
            Ok(m) => {
                proof {
                    self.lemma_metrics_small(key);
                }
                let g = self.glyphs[key.glyph.id as usize];
                let buf = filled_buffer(m.width, m.height, g.coverage);
                proof {
                    assert(buf@ =~= self.spec_coverage(key));
                }
                Ok(buf)
            },
        }
    }

    /// First matching pair of the kerning table, scaled to the size; `None`
    /// when the font defines no kerning pairs at all.
    fn kerning(&self, a: Glyph, b: Glyph, size: Fixed) -> (r: Option<Fixed>) {
        let t = &self.kerning;
        if t.len() == 0 {
            return None;
        }
        proof {
            assert(t@.skip(0) =~= t@);
        }
        let mut i: usize = 0;
        while i < t.len()
            invariant
                i <= t@.len(),
                self.wf_spec(),
                size.spec_valid_size(),
                t@ == self.kerning@,
                t@.len() > 0,
                Self::kern_lookup(t@, a.id, b.id) == Self::kern_lookup(
                    t@.skip(i as int),
                    a.id,
                    b.id,
                ),
            decreases t@.len() - i,
        {
            proof {
                assert(t@.skip(i as int).drop_first() =~= t@.skip(i as int + 1));
                assert(t@.skip(i as int)[0] == t@[i as int]);
                assert(-(8 * self.upem()) <= self.kerning@[i as int].adjust <= 8 * self.upem());
            }
            let p = t[i];
            if p.left == a.id && p.right == b.id {
                return Some(scale_units(p.adjust, size, self.units_per_em));
            }
            i = i + 1;
        }
        proof {
            assert(t@.skip(t@.len() as int).len() == 0);
        }
        Some(scale_units(0, size, self.units_per_em))
    }
}

} // verus!
