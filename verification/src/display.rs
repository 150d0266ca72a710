//! Preparing a frame for a presenter.

use vstd::prelude::*;

verus! {

/// Enlarges a frame of `width` by `height` pixels by the whole factor
/// `scale`: every pixel becomes a square of `scale` by `scale` pixels.
pub fn scale_framebuffer(framebuffer: &[u32], width: usize, height: usize, scale: usize) -> (scaled:
    Vec<u32>)
    requires
        width * height <= framebuffer@.len(),
        (width * scale) * (height * scale) <= usize::MAX,
        width * scale <= usize::MAX,
        height * scale <= usize::MAX,
    ensures
        scaled@.len() == (width * scale) * (height * scale),
        forall|sx: int, sy: int|
            0 <= sx < width * scale && 0 <= sy < height * scale ==> #[trigger] scaled@[sy * (width
                * scale) + sx] == framebuffer@[(sy / scale as int) * width + sx / scale as int],
{
    let available = framebuffer.len();
    let scaled_width = width * scale;
    let scaled_height = height * scale;
    let mut scaled: Vec<u32> = Vec::new();
    let mut sy: usize = 0;
    while sy < scaled_height
        invariant
            sy <= scaled_height,
            scaled_width == width * scale,
            scaled_height == height * scale,
            width * height <= framebuffer@.len(),
            framebuffer@.len() == available,
            scaled@.len() == sy * scaled_width,
            forall|x: int, y: int|
                0 <= x < scaled_width && 0 <= y < sy ==> #[trigger] scaled@[y * scaled_width + x]
                    == framebuffer@[(y / scale as int) * width + x / scale as int],
        decreases scaled_height - sy,
    {
        let mut sx: usize = 0;
        while sx < scaled_width
            invariant
                sx <= scaled_width,
                sy < scaled_height,
                scaled_width == width * scale,
                scaled_height == height * scale,
                width * height <= framebuffer@.len(),
                framebuffer@.len() == available,
                scaled@.len() == sy * scaled_width + sx,
                forall|x: int, y: int|
                    0 <= x < scaled_width && 0 <= y < sy ==> #[trigger] scaled@[y * scaled_width
                        + x] == framebuffer@[(y / scale as int) * width + x / scale as int],
                forall|x: int|
                    0 <= x < sx ==> #[trigger] scaled@[sy * scaled_width + x] == framebuffer@[(sy
                        / scale) * width + x / scale as int],
            decreases scaled_width - sx,
        {
            proof {
                lemma_source_pixel(sx as int, sy as int, width as int, height as int, scale as int);
            }
            let row = sy / scale;
            let col = sx / scale;
            proof {
                assert(0 <= row * width && row * width + col < width * height) by (nonlinear_arith)
                    requires
                        0 <= row < height,
                        0 <= col < width,
                ;
            }
            let source = row * width + col;
            let ghost before = scaled@;
            scaled.push(framebuffer[source]);
            proof {
                assert forall|x: int, y: int| 0 <= x < scaled_width && 0 <= y < sy implies #[trigger] scaled@[y
                    * scaled_width + x] == framebuffer@[(y / scale as int) * width + x
                    / scale as int] by {
                    lemma_row_index(x, y, sy as int, scaled_width as int);
                    assert(scaled@[y * scaled_width + x] == before[y * scaled_width + x]);
                }
                assert forall|x: int| 0 <= x < sx + 1 implies #[trigger] scaled@[sy * scaled_width
                    + x] == framebuffer@[(sy / scale) * width + x / scale as int] by {
                    if x < sx {
                        assert(scaled@[sy * scaled_width + x] == before[sy * scaled_width + x]);
                    }
                }
            }
            sx += 1;
        }
        proof {
            assert((sy + 1) * scaled_width == sy * scaled_width + scaled_width) by (nonlinear_arith);
            assert forall|x: int, y: int| 0 <= x < scaled_width && 0 <= y < sy + 1 implies #[trigger] scaled@[y
                * scaled_width + x] == framebuffer@[(y / scale as int) * width + x / scale as int] by {
                if y == sy {
                    assert(scaled@[sy * scaled_width + x] == framebuffer@[(sy / scale) * width + x
                        / scale as int]);
                }
            }
        }
        sy += 1;
    }
    proof {
        assert(scaled_height * scaled_width == (width * scale) * (height * scale))
            by (nonlinear_arith)
            requires
                scaled_width == width * scale,
                scaled_height == height * scale,
        ;
    }
    scaled
}

/// The pixel of the frame that the enlarged pixel (`sx`, `sy`) copies lies
/// within the frame.
pub proof fn lemma_source_pixel(sx: int, sy: int, width: int, height: int, scale: int)
    requires
        0 <= sx < width * scale,
        0 <= sy < height * scale,
        0 <= width,
        0 <= height,
        0 <= scale,
    ensures
        scale > 0,
        0 <= sx / scale < width,
        0 <= sy / scale < height,
        0 <= (sy / scale) * width + sx / scale < width * height,
{
    assert(scale > 0) by (nonlinear_arith)
        requires
            0 <= sx < width * scale,
            0 <= scale,
    ;
    assert(0 <= sx / scale < width) by (nonlinear_arith)
        requires
            0 <= sx < width * scale,
            scale > 0,
    ;
    assert(0 <= sy / scale < height) by (nonlinear_arith)
        requires
            0 <= sy < height * scale,
            scale > 0,
    ;
    let row = sy / scale;
    let col = sx / scale;
    assert(0 <= row * width + col < width * height) by (nonlinear_arith)
        requires
            0 <= row < height,
            0 <= col < width,
    ;
}

/// A pixel of an earlier row comes before the start of row `rows`.
pub proof fn lemma_row_index(x: int, y: int, rows: int, row_width: int)
    requires
        0 <= x < row_width,
        0 <= y < rows,
    ensures
        0 <= y * row_width + x < rows * row_width,
{
    assert(0 <= y * row_width + x < rows * row_width) by (nonlinear_arith)
        requires
            0 <= x < row_width,
            0 <= y < rows,
    ;
}

} // verus!
