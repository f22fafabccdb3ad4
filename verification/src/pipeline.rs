//! Assembly of coverage bitmaps: the row-major buffer a backend's rasterizer
//! fills, one byte per pixel, origin at the top left.

use vstd::prelude::*;

verus! {

/// One quantized coverage sample an outline rasterizer produced: the pixel it
/// covers and its coverage scaled to the byte range.
#[derive(Clone, Copy, PartialEq, Eq, Structural, Debug)]
pub struct CoverageSample {
    pub x: u32,
    pub y: u32,
    pub alpha: u8,
}

/// The byte a pixel ends with after a sequence of samples: the alpha of the
/// last sample aimed at it, or zero where no sample was.
pub open spec fn sample_at(samples: Seq<CoverageSample>, x: int, y: int) -> u8
    decreases samples.len(),
{
    if samples.len() == 0 {
        0u8
    } else if samples.last().x == x && samples.last().y == y {
        samples.last().alpha
    } else {
        sample_at(samples.drop_last(), x, y)
    }
}

/// A row-major index stays inside the buffer.
proof fn lemma_rowmajor_index_bound(width: int, height: int, x: int, y: int)
    requires
        0 <= x < width,
        0 <= y < height,
    ensures
        0 <= y * width + x < width * height,
{
    assert(0 <= y * width + x < width * height) by (nonlinear_arith)
        requires
            0 <= x < width,
            0 <= y < height,
    ;
}

/// Row-major indexing is injective over in-range columns.
proof fn lemma_rowmajor_injective(width: int, x1: int, y1: int, x2: int, y2: int)
    requires
        0 <= x1 < width,
        0 <= x2 < width,
        0 <= y1,
        0 <= y2,
        y1 * width + x1 == y2 * width + x2,
    ensures
        x1 == x2,
        y1 == y2,
{
    assert(x1 == x2 && y1 == y2) by (nonlinear_arith)
        requires
            0 <= x1 < width,
            0 <= x2 < width,
            0 <= y1,
            0 <= y2,
            y1 * width + x1 == y2 * width + x2,
    ;
}

/// A buffer of `width * height` bytes all holding `value`.
pub fn filled_buffer(width: u32, height: u32, value: u8) -> (buf: Vec<u8>)
    requires
        width * height <= 0x1000_0000,
    ensures
        buf@.len() == width * height,
        forall|k: int| 0 <= k < buf@.len() ==> buf@[k] == value,
{
    let n: usize = (width as usize) * (height as usize);
    let mut buf: Vec<u8> = Vec::new();
    let mut i: usize = 0;
    while i < n
        invariant
            i <= n,
            n == width * height,
            buf@.len() == i,
            forall|k: int| 0 <= k < i ==> buf@[k] == value,
        decreases n - i,
    {
        buf.push(value);
        i = i + 1;
    }
    buf
}

/// Assemble the coverage buffer of one rasterized glyph: `width * height`
/// bytes, row-major from the top left, each pixel holding the alpha of the
/// last sample aimed at it and zero elsewhere. Samples outside the buffer are
/// ignored.
pub fn fill_coverage(width: u32, height: u32, samples: &Vec<CoverageSample>) -> (buf: Vec<u8>)
    requires
        width * height <= 0x1000_0000,
    ensures
        buf@.len() == width * height,
        forall|x: int, y: int|
            0 <= x < width && 0 <= y < height ==> buf@[y * (width as int) + x] == sample_at(
                samples@,
                x,
                y,
            ),
{
    let mut buf = filled_buffer(width, height, 0u8);
    assert forall|x: int, y: int| #![trigger sample_at(samples@.take(0), x, y)] 0 <= x < width
        && 0 <= y < height implies buf@[y * (width as int) + x] == sample_at(
        samples@.take(0),
        x,
        y,
    ) by {
        lemma_rowmajor_index_bound(width as int, height as int, x, y);
    }
    let mut j: usize = 0;
    while j < samples.len()
        invariant
            j <= samples.len(),
            width * height <= 0x1000_0000,
            buf@.len() == width * height,
            forall|x: int, y: int|
                #![trigger sample_at(samples@.take(j as int), x, y)]
                0 <= x < width && 0 <= y < height ==> buf@[y * (width as int) + x] == sample_at(
                    samples@.take(j as int),
                    x,
                    y,
                ),
        decreases samples.len() - j,
    {
        let s = samples[j];
        proof {
            assert(samples@.take(j as int + 1).drop_last() =~= samples@.take(j as int));
            assert(samples@.take(j as int + 1).last() == samples@[j as int]);
        }
        if s.x < width && s.y < height {
            proof {
                lemma_rowmajor_index_bound(width as int, height as int, s.x as int, s.y as int);
            }
            let idx: usize = (s.y as usize) * (width as usize) + (s.x as usize);
            buf.set(idx, s.alpha);
            assert forall|x: int, y: int|
                #![trigger sample_at(samples@.take(j as int + 1), x, y)]
                0 <= x < width && 0 <= y < height implies buf@[y * (width as int) + x]
                == sample_at(samples@.take(j as int + 1), x, y) by {
                lemma_rowmajor_index_bound(width as int, height as int, x, y);
                let prev: u8 = sample_at(samples@.take(j as int), x, y);
                if y * (width as int) + x == idx {
                    lemma_rowmajor_injective(width as int, x, y, s.x as int, s.y as int);
                }
            }
        } else {
            assert forall|x: int, y: int|
                #![trigger sample_at(samples@.take(j as int + 1), x, y)]
                0 <= x < width && 0 <= y < height implies buf@[y * (width as int) + x]
                == sample_at(samples@.take(j as int + 1), x, y) by {
                lemma_rowmajor_index_bound(width as int, height as int, x, y);
                let prev: u8 = sample_at(samples@.take(j as int), x, y);
            }
        }
        j = j + 1;
    }
    proof {
        assert(samples@.take(samples@.len() as int) =~= samples@);
    }
    buf
}

} // verus!
