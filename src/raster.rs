use vstd::prelude::*;

verus! {

/// The pixel emitted `k`-th in an image of the given size: rows from the top
/// one (`j == height - 1`) down to the bottom one, each left to right. A pixel
/// is `(i, j)`, column `i` counted from the left, row `j` from the bottom.
pub open spec fn pixel_at(width: int, height: int, k: int) -> (int, int) {
    (k % width, height - 1 - k / width)
}

/// The pixels of a `width` by `height` image in the order they are emitted.
pub fn scan_order(width: u32, height: u32) -> (r: Vec<(u32, u32)>)
    requires
        width as int * height as int <= usize::MAX,
    ensures
        r@.len() == width as int * height as int,
        forall|k: int|
            0 <= k < r@.len() ==> {
                let (i, j) = #[trigger] r@[k];
                (i as int, j as int) == pixel_at(width as int, height as int, k)
            },
{
    let mut r: Vec<(u32, u32)> = Vec::new();
    let mut row: u32 = height;
    while row > 0
        invariant
            row <= height,
            width as int * height as int <= usize::MAX,
            r@.len() == width as int * (height - row),
            forall|k: int|
                0 <= k < r@.len() ==> {
                    let (i, j) = #[trigger] r@[k];
                    (i as int, j as int) == pixel_at(width as int, height as int, k)
                },
        decreases row,
    {
        row = row - 1;
        let mut col: u32 = 0;
        while col < width
            invariant
                row < height,
                col <= width,
                width as int * height as int <= usize::MAX,
                r@.len() == width as int * (height - 1 - row) + col,
                forall|k: int|
                    0 <= k < r@.len() ==> {
                        let (i, j) = #[trigger] r@[k];
                        (i as int, j as int) == pixel_at(width as int, height as int, k)
                    },
            decreases width - col,
        {
            proof {
                let k = r@.len() as int;
                let q = height - 1 - row;
                assert(k == width * q + col);
                assert(k % (width as int) == col as int && k / (width as int) == q) by {
                    lemma_div_mod_parts(width as int, q, col as int);
                }
                assert(width as int * (q + 1) <= width as int * height) by (nonlinear_arith)
                    requires
                        q + 1 <= height,
                        width >= 0,
                ;
            }
            r.push((col, row));
            col = col + 1;
        }
        assert(width as int * (height - 1 - row) + width == width as int * (height - row))
            by (nonlinear_arith);
    }
    r
}

/// Each pixel of the image is emitted exactly once: pixel `(i, j)` comes at
/// place `(height - 1 - j) * width + i` of the order, and at no other.
pub proof fn lemma_each_pixel_once(width: int, height: int, i: int, j: int)
    requires
        0 <= i < width,
        0 <= j < height,
    ensures
        0 <= (height - 1 - j) * width + i < width * height,
        pixel_at(width, height, (height - 1 - j) * width + i) == (i, j),
        forall|k: int|
            0 <= k < width * height && #[trigger] pixel_at(width, height, k) == (i, j) ==> k == (
            height - 1 - j) * width + i,
{
    let q = height - 1 - j;
    assert(0 <= q * width + i < width * height) by (nonlinear_arith)
        requires
            0 <= q < height,
            0 <= i < width,
    ;
    assert(q * width == width * q) by (nonlinear_arith);
    lemma_div_mod_parts(width, q, i);
    assert forall|k: int|
        0 <= k < width * height && #[trigger] pixel_at(width, height, k) == (i, j) implies k == q
            * width + i by {
        vstd::arithmetic::div_mod::lemma_fundamental_div_mod(k, width);
        assert(width * (k / width) == q * width) by (nonlinear_arith)
            requires
                k / width == q,
        ;
    }
}

/// Quotient and remainder of `w * q + c` by `w`, for a remainder below `w`.
proof fn lemma_div_mod_parts(w: int, q: int, c: int)
    requires
        0 <= c < w,
        0 <= q,
    ensures
        (w * q + c) % w == c,
        (w * q + c) / w == q,
{
    assert(w * q == q * w) by (nonlinear_arith);
    vstd::arithmetic::div_mod::lemma_fundamental_div_mod_converse(w * q + c, w, q, c);
}

} // verus!
