use fontcap::fixed::{floor_div_i64, pixel_span, scale_units, Fixed};
use fontcap::pipeline::{fill_coverage, filled_buffer, CoverageSample};

#[test]
fn floor_division_rounds_toward_negative_infinity() {
    assert_eq!(floor_div_i64(7, 2), 3);
    assert_eq!(floor_div_i64(-7, 2), -4);
    assert_eq!(floor_div_i64(-8, 2), -4);
    assert_eq!(floor_div_i64(0, 65536), 0);
    assert_eq!(floor_div_i64(-1, 65536), -1);
}

#[test]
fn pixel_span_floors_and_ceils() {
    // -1.5 .. 2.25 pixels covers columns -2 .. 3: five cells.
    let lo = Fixed { raw: -3 * 65536 / 2 };
    let hi = Fixed { raw: 9 * 65536 / 4 };
    assert_eq!(pixel_span(lo, hi), (-2, 5));
    // An exact boundary does not widen the span.
    let a = Fixed::from_int(1);
    let b = Fixed::from_int(3);
    assert_eq!(pixel_span(a, b), (1, 2));
    // An empty interval covers no cell.
    assert_eq!(pixel_span(a, a), (1, 0));
}

#[test]
fn scaling_is_exact() {
    // 40 font units at size 32 under 64 units per em: 20 pixels.
    let r = scale_units(40, Fixed::from_int(32), 64);
    assert_eq!(r.raw, 20 * 65536);
    // Negative measures scale toward negative infinity.
    let n = scale_units(-3, Fixed::from_int(1), 64);
    assert_eq!(n.raw, -3 * 65536 / 64);
}

#[test]
fn filled_buffer_has_exact_length_and_value() {
    let buf = filled_buffer(20, 24, 255);
    assert_eq!(buf.len(), 480);
    assert!(buf.iter().all(|&b| b == 255));
    assert_eq!(filled_buffer(0, 24, 9), Vec::<u8>::new());
}

#[test]
fn fill_coverage_is_row_major_and_last_wins() {
    let samples = vec![
        CoverageSample { x: 0, y: 0, alpha: 10 },
        CoverageSample { x: 2, y: 1, alpha: 20 },
        CoverageSample { x: 0, y: 0, alpha: 30 },
        CoverageSample { x: 5, y: 5, alpha: 99 },
    ];
    let buf = fill_coverage(3, 2, &samples);
    assert_eq!(buf, vec![30, 0, 0, 0, 0, 20]);
}

#[test]
fn fixed_constructors() {
    assert_eq!(Fixed::zero().raw, 0);
    assert_eq!(Fixed::from_int(32).raw, 32 * 65536);
    assert_eq!(Fixed::from_int(-2).raw, -2 * 65536);
    assert!(Fixed::from_int(32).valid_size());
    assert!(!Fixed::zero().valid_size());
    assert!(!Fixed::from_int(1000).valid_size());
}
