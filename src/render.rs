//! Layout of a rendered image: one colour per pixel, row by row from the
//! top row, left to right within a row.

use vstd::prelude::*;
use vstd::arithmetic::div_mod::lemma_fundamental_div_mod_converse;

verus! {

/// The pixel stored at position `i` of a row-major buffer `width` pixels
/// wide, as `(x, y)`.
pub open spec fn pixel_at(i: int, width: int) -> (int, int) {
    (i % width, i / width)
}

proof fn lemma_row_bound(x: int, y: int, width: int, height: int)
    requires
        0 <= x < width,
        0 <= y < height,
    ensures
        y * width + x < width * height,
        (y + 1) * width <= width * height,
        (y + 1) * width == y * width + width,
{
    assert(y * width + x < width * height && (y + 1) * width <= width * height && (y + 1) * width
        == y * width + width) by (nonlinear_arith)
        requires
            0 <= x < width,
            0 <= y < height,
    ;
}

/// The number of pixels of a `width` by `height` image, or `None` when it
/// does not fit in `usize`.
pub fn pixel_count(width: u32, height: u32) -> (r: Option<usize>)
    ensures
        r matches Some(n) ==> n == width * height,
        r is None <==> width * height > usize::MAX,
{
    (width as usize).checked_mul(height as usize)
}

/// Position in the row-major buffer of the pixel at column `x` of row `y`.
pub fn pixel_index(x: u32, y: u32, width: u32, height: u32) -> (r: usize)
    requires
        x < width,
        y < height,
        width * height <= usize::MAX,
    ensures
        r == y * width + x,
        r < width * height,
        pixel_at(r as int, width as int) == (x as int, y as int),
{
    proof {
        lemma_row_bound(x as int, y as int, width as int, height as int);
        assert(y * width <= width * height);
        lemma_fundamental_div_mod_converse(y * width + x, width as int, y as int, x as int);
    }
    y as usize * width as usize + x as usize
}

/// The coordinates of every pixel of a `width` by `height` image in the
/// order the image buffer holds them.
pub fn pixel_order(width: u32, height: u32) -> (r: Vec<(u32, u32)>)
    requires
        width * height <= usize::MAX,
    ensures
        r@.len() == width * height,
        forall|i: int|
            0 <= i < r@.len() ==> (r@[i].0 as int, r@[i].1 as int) == pixel_at(i, width as int),
{
    let mut r: Vec<(u32, u32)> = Vec::new();
    let mut y: u32 = 0;
    while y < height
        invariant
            y <= height,
            r@.len() == y * width,
            forall|i: int|
                0 <= i < r@.len() ==> (r@[i].0 as int, r@[i].1 as int) == pixel_at(i, width as int),
        decreases height - y,
    {
        let mut x: u32 = 0;
        while x < width
            invariant
                x <= width,
                y < height,
                r@.len() == y * width + x,
                forall|i: int|
                    0 <= i < r@.len() ==> (r@[i].0 as int, r@[i].1 as int) == pixel_at(
                        i,
                        width as int,
                    ),
            decreases width - x,
        {
            proof {
                lemma_row_bound(x as int, y as int, width as int, height as int);
                lemma_fundamental_div_mod_converse(y * width + x, width as int, y as int, x as int);
            }
            r.push((x, y));
            x = x + 1;
        }
        proof {
            if width > 0 {
                lemma_row_bound(0, y as int, width as int, height as int);
            } else {
                assert(y * width == 0) by (nonlinear_arith)
                    requires
                        width == 0,
                ;
                assert((y + 1) * width == 0) by (nonlinear_arith)
                    requires
                        width == 0,
                ;
            }
        }
        y = y + 1;
    }
    proof {
        if width > 0 {
            assert(height * width == width * height) by (nonlinear_arith);
        } else {
            assert(width * height == 0) by (nonlinear_arith)
                requires
                    width == 0,
            ;
        }
    }
    r
}

} // verus!
