use vstd::prelude::*;

verus! {

/// Position in the row-major pixel buffer of the image pixel at column `x`
/// and image row `y`. The buffer holds scanlines bottom first (scanline `j`
/// is sampled at height `j / (height - 1)`), while images list rows top
/// first, so image row `y` is scanline `height - 1 - y`.
pub open spec fn image_index_of(x: int, y: int, width: int, height: int) -> int {
    x + (height - 1 - y) * width
}

/// Index into the pixel buffer of the image pixel at column `x` and image
/// row `y` of a `width` by `height` image.
pub fn image_index(x: usize, y: usize, width: usize, height: usize) -> (r: usize)
    requires
        x < width,
        y < height,
        width * height <= usize::MAX,
    ensures
        r == image_index_of(x as int, y as int, width as int, height as int),
        r < width * height,
{
    let row: usize = height - 1 - y;
    proof {
        lemma_index_in_buffer(x as int, row as int, width as int, height as int);
    }
    x + row * width
}

/// A pixel at column `x` of scanline `row` lies inside the buffer.
proof fn lemma_index_in_buffer(x: int, row: int, width: int, height: int)
    requires
        0 <= x < width,
        0 <= row < height,
    ensures
        0 <= x + row * width < width * height,
{
    assert(0 <= x + row * width < width * height) by (nonlinear_arith)
        requires
            0 <= x < width,
            0 <= row < height,
    ;
}

/// Every cell of the pixel buffer receives exactly one image pixel: the map
/// from image coordinates to buffer positions stays inside the buffer, and
/// two distinct pixels never share a position.
pub proof fn lemma_image_index_bijective(
    x1: int,
    y1: int,
    x2: int,
    y2: int,
    width: int,
    height: int,
)
    requires
        0 <= x1 < width,
        0 <= y1 < height,
        0 <= x2 < width,
        0 <= y2 < height,
    ensures
        0 <= image_index_of(x1, y1, width, height) < width * height,
        image_index_of(x1, y1, width, height) == image_index_of(x2, y2, width, height) ==> x1
            == x2 && y1 == y2,
{
    lemma_index_in_buffer(x1, height - 1 - y1, width, height);
    let r1 = height - 1 - y1;
    let r2 = height - 1 - y2;
    assert(x1 + r1 * width == x2 + r2 * width ==> r1 == r2 && x1 == x2) by (nonlinear_arith)
        requires
            0 <= x1 < width,
            0 <= x2 < width,
            0 <= r1,
            0 <= r2,
    ;
}

/// Every cell of the buffer is reached: position `i` is the image pixel at
/// column `i % width` of image row `height - 1 - i / width`.
pub proof fn lemma_image_index_onto(i: int, width: int, height: int)
    requires
        width > 0,
        0 <= i < width * height,
    ensures
        0 <= i % width < width,
        0 <= height - 1 - i / width < height,
        image_index_of(i % width, height - 1 - i / width, width, height) == i,
{
    assert(0 <= i / width < height) by (nonlinear_arith)
        requires
            width > 0,
            0 <= i < width * height,
    ;
    vstd::arithmetic::div_mod::lemma_fundamental_div_mod(i, width);
    vstd::arithmetic::mul::lemma_mul_is_commutative(width, i / width);
}

} // verus!
