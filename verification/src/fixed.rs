//! Signed fixed-point scalars and the arithmetic of the scaling pipeline.
//!
//! A `Fixed` carries `raw / 65536` as its real value: sixteen fractional bits,
//! enough to hold a rendering size or an engine-native measure exactly while
//! every operation on it stays in integer arithmetic.

use vstd::prelude::*;
use vstd::arithmetic::div_mod::{
    lemma_div_is_ordered, lemma_div_multiples_vanish, lemma_fundamental_div_mod,
    lemma_fundamental_div_mod_converse_div, lemma_mod_bound,
};

verus! {

/// Largest raw value accepted as a rendering size: 256 pixels. Sizes above
/// this would push the scaled coordinates outside the range the pixel
/// pipeline is proved overflow-free for.
pub const MAX_SIZE_RAW: i64 = 0x100_0000;

/// A signed fixed-point number with sixteen fractional bits.
#[derive(Clone, Copy, PartialEq, Eq, Structural, Debug)]
pub struct Fixed {
    pub raw: i64,
}

impl Fixed {
    /// The fixed-point zero.
    pub fn zero() -> (r: Fixed)
        ensures
            r.raw == 0,
    {
        Fixed { raw: 0 }
    }

    /// The fixed-point value of a small integer.
    pub fn from_int(v: i32) -> (r: Fixed)
        ensures
            r.raw == v * 65536,
    {
        Fixed { raw: (v as i64) * 65536 }
    }

    /// Whether this value is a valid rendering size: strictly positive and
    /// within the range the pipeline is proved overflow-free for.
    pub open spec fn spec_valid_size(self) -> bool {
        0 < self.raw <= MAX_SIZE_RAW
    }

    /// Runtime test of `spec_valid_size`.
    pub fn valid_size(&self) -> (r: bool)
        ensures
            r == self.spec_valid_size(),
    {
        0 < self.raw && self.raw <= MAX_SIZE_RAW
    }
}

/// Mathematical floor division, as `int` division denotes it.
pub open spec fn floor_div(a: int, b: int) -> int {
    a / b
}

/// The pixel column or row a fixed-point coordinate falls in: its floor.
pub open spec fn floor_px_spec(raw: int) -> int {
    raw / 65536
}

/// The first pixel column or row strictly beyond a fixed-point coordinate,
/// rounding fractional coordinates up: its ceiling.
pub open spec fn ceil_px_spec(raw: int) -> int {
    (raw + 65535) / 65536
}

/// An engine-native measure scaled to a rendering size: `units` font units
/// under a font with `upem` units per em, at `size_raw` raw size units, with
/// the fractional part rounded toward negative infinity.
pub open spec fn scale_spec(units: int, size_raw: int, upem: int) -> int {
    (units * size_raw) / upem
}

/// Floor division on machine integers, for a positive divisor.
pub fn floor_div_i64(a: i64, b: i64) -> (q: i64)
    requires
        0 < b <= 0x1_0000_0000,
        -0x4000_0000_0000_0000 <= a <= 0x4000_0000_0000_0000,
    ensures
        q == floor_div(a as int, b as int),
{
    if a >= 0 {
        proof {
            lemma_div_stays_bounded(a as int, b as int, 0x4000_0000_0000_0000);
        }
        let q0: u64 = (a as u64) / (b as u64);
        q0 as i64
    } else {
        let n: u64 = (-a) as u64;
        let q0: u64 = (n + (b - 1) as u64) / (b as u64);
        proof {
            lemma_div_neg(a as int, b as int);
            lemma_div_stays_bounded(-(a as int) + b - 1, b as int, 0x4001_0000_0000_0000);
        }
        -(q0 as i64)
    }
}

/// For a negative numerator and positive divisor, floor division is the
/// negated, rounded-up division of the magnitudes.
proof fn lemma_div_neg(a: int, b: int)
    requires
        a < 0,
        0 < b,
    ensures
        a / b == -((-a + b - 1) / b),
{
    let q = a / b;
    let r = a % b;
    lemma_fundamental_div_mod(a, b);
    lemma_mod_bound(a, b);
    assert(-a + b - 1 == (-q) * b + (b - 1 - r)) by (nonlinear_arith)
        requires
            a == b * q + r,
    ;
    lemma_fundamental_div_mod_converse_div(-a + b - 1, b, -q, b - 1 - r);
}

/// Floor division by a positive divisor never moves a value past a bound on
/// the same side: a quotient of a value in `[-bound, bound]` stays in
/// `[-bound, bound]`.
proof fn lemma_div_stays_bounded(a: int, b: int, bound: int)
    requires
        0 < b,
        0 <= bound,
        -bound <= a <= bound,
    ensures
        -bound <= a / b <= bound,
{
    lemma_fundamental_div_mod(a, b);
    lemma_mod_bound(a, b);
    assert(-bound <= a / b <= bound) by (nonlinear_arith)
        requires
            0 < b,
            0 <= bound,
            -bound <= a <= bound,
            a == b * (a / b) + (a % b),
            0 <= a % b < b,
    ;
}

/// Scaling stays within `k` size units when the measure is within `k` em
/// units: `|units| <= k * upem` gives `|scale_spec| <= k * size_raw`.
pub proof fn lemma_scale_spec_bound(units: int, size_raw: int, upem: int, k: int)
    requires
        1 <= upem,
        0 <= k,
        -k * upem <= units <= k * upem,
        0 < size_raw,
    ensures
        -k * size_raw <= scale_spec(units, size_raw, upem) <= k * size_raw,
{
    assert(units * size_raw <= k * upem * size_raw && -(k * upem * size_raw) <= units
        * size_raw) by (nonlinear_arith)
        requires
            -k * upem <= units <= k * upem,
            0 < size_raw,
    ;
    lemma_div_is_ordered(units * size_raw, k * upem * size_raw, upem);
    lemma_div_is_ordered(-(k * upem * size_raw), units * size_raw, upem);
    assert(k * upem * size_raw == upem * (k * size_raw)) by (nonlinear_arith);
    assert(-(k * upem * size_raw) == upem * (-(k * size_raw))) by (nonlinear_arith);
    lemma_div_multiples_vanish(k * size_raw, upem);
    lemma_div_multiples_vanish(-(k * size_raw), upem);
    assert(-k * size_raw == -(k * size_raw)) by (nonlinear_arith);
}

/// Scaling is monotone in the measure: a larger count of font units never
/// scales to a smaller fixed-point value.
pub proof fn lemma_scale_monotone_units(u1: int, u2: int, size_raw: int, upem: int)
    requires
        1 <= upem,
        0 < size_raw,
        u1 <= u2,
    ensures
        scale_spec(u1, size_raw, upem) <= scale_spec(u2, size_raw, upem),
{
    assert(u1 * size_raw <= u2 * size_raw) by (nonlinear_arith)
        requires
            u1 <= u2,
            0 < size_raw,
    ;
    lemma_div_is_ordered(u1 * size_raw, u2 * size_raw, upem);
}

/// Scaling a non-negative measure is monotone in the size: growing the
/// rendering size never shrinks the scaled value.
pub proof fn lemma_scale_monotone_size(units: int, s1: int, s2: int, upem: int)
    requires
        1 <= upem,
        0 <= units,
        s1 <= s2,
    ensures
        scale_spec(units, s1, upem) <= scale_spec(units, s2, upem),
{
    assert(units * s1 <= units * s2) by (nonlinear_arith)
        requires
            0 <= units,
            s1 <= s2,
    ;
    lemma_div_is_ordered(units * s1, units * s2, upem);
}

/// The floor of a coordinate never exceeds the ceiling of a coordinate at or
/// beyond it.
pub proof fn lemma_floor_le_ceil(lo: int, hi: int)
    requires
        lo <= hi,
    ensures
        floor_px_spec(lo) <= ceil_px_spec(hi),
{
    lemma_div_is_ordered(lo, hi + 65535, 65536);
}

/// Pixel bounds from raw bounds: a coordinate within `2^27` raw units floors
/// and ceils to a pixel index within `2049`.
pub proof fn lemma_px_bounds(raw: int)
    requires
        -0x800_0000 <= raw <= 0x800_0000,
    ensures
        -0x801 <= floor_px_spec(raw) <= 0x801,
        -0x801 <= ceil_px_spec(raw) <= 0x801,
{
    lemma_div_stays_bounded(raw, 65536, 0x800_0000);
    lemma_div_is_ordered(-0x800_0000, raw, 65536);
    lemma_div_is_ordered(raw, 0x800_0000, 65536);
    lemma_div_is_ordered(-0x800_0000int + 65535, raw + 65535, 65536);
    lemma_div_is_ordered(raw + 65535, 0x800_0000int + 65535, 65536);
}

/// Scale an engine-native measure to a rendering size.
///
/// The measure must lie within `2^21` font units and the size within
/// `MAX_SIZE_RAW`; the product then fits comfortably in a machine word.
pub fn scale_units(units: i32, size: Fixed, upem: u16) -> (r: Fixed)
    requires
        1 <= upem,
        -0x20_0000 <= units <= 0x20_0000,
        size.spec_valid_size(),
    ensures
        r.raw == scale_spec(units as int, size.raw as int, upem as int),
        -0x20_0000_0000_0000 <= r.raw <= 0x20_0000_0000_0000,
{
    proof {
        assert(-0x20_0000_0000_0000 <= (units as int) * (size.raw as int)
            <= 0x20_0000_0000_0000) by (nonlinear_arith)
            requires
                -0x20_0000 <= units as int <= 0x20_0000,
                0 < size.raw as int <= 0x100_0000,
        ;
    }
    let prod: i64 = (units as i64) * size.raw;
    proof {
        lemma_div_stays_bounded(prod as int, upem as int, 0x20_0000_0000_0000);
    }
    Fixed { raw: floor_div_i64(prod, upem as i64) }
}

/// The pixel span covering a fixed-point interval: the floor of its low end
/// and the count of pixel cells up to the ceiling of its high end.
pub fn pixel_span(lo: Fixed, hi: Fixed) -> (r: (i32, u32))
    requires
        lo.raw <= hi.raw,
        -0x800_0000 <= lo.raw,
        hi.raw <= 0x800_0000,
    ensures
        r.0 == floor_px_spec(lo.raw as int),
        r.1 == ceil_px_spec(hi.raw as int) - floor_px_spec(lo.raw as int),
        r.1 <= 0x2000,
{
    proof {
        lemma_px_bounds(lo.raw as int);
        lemma_px_bounds(hi.raw as int);
        lemma_floor_le_ceil(lo.raw as int, hi.raw as int);
    }
    let lo_px: i64 = floor_div_i64(lo.raw, 65536);
    let hi_px: i64 = floor_div_i64(hi.raw + 65535, 65536);
    (lo_px as i32, (hi_px - lo_px) as u32)
}

} // verus!
