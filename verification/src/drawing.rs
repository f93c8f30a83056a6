//! In-place drawing on a BGR matrix: the rectangle outline primitive and its
//! supporting geometry types.

use vstd::prelude::*;

use crate::mat::Mat;

verus! {

/// A point in pixel coordinates.
#[derive(Clone, Copy, Debug, PartialEq, Eq, Structural)]
pub struct Point {
    pub x: i32,
    pub y: i32,
}

impl Point {
    /// A point from its coordinates.
    pub fn new(x: i32, y: i32) -> (r: Self)
        ensures
            r.x == x,
            r.y == y,
    {
        Point { x, y }
    }
}

/// An axis-aligned rectangle: origin and extent.
#[derive(Clone, Copy, Debug, PartialEq, Eq, Structural)]
pub struct Rect {
    pub x: i32,
    pub y: i32,
    pub width: i32,
    pub height: i32,
}

impl Rect {
    /// A rectangle from origin and extent.
    pub fn new(x: i32, y: i32, width: i32, height: i32) -> (r: Self)
        ensures
            r.x == x,
            r.y == y,
            r.width == width,
            r.height == height,
    {
        Rect { x, y, width, height }
    }
}

/// A BGR color triple.
#[derive(Clone, Copy, Debug, PartialEq, Eq, Structural)]
pub struct Scalar {
    /// Blue.
    pub v0: u8,
    /// Green.
    pub v1: u8,
    /// Red.
    pub v2: u8,
}

impl Scalar {
    /// A color from its blue, green and red components.
    pub fn new(b: u8, g: u8, r: u8) -> (res: Self)
        ensures
            res.v0 == b,
            res.v1 == g,
            res.v2 == r,
    {
        Scalar { v0: b, v1: g, v2: r }
    }

    /// A gray color with all three components equal.
    pub fn all(v: u8) -> (res: Self)
        ensures
            res.v0 == v,
            res.v1 == v,
            res.v2 == v,
    {
        Scalar { v0: v, v1: v, v2: v }
    }

    /// The component a channel index selects: blue, green, then red.
    pub open spec fn sel(self, k: int) -> u8 {
        if k == 0 {
            self.v0
        } else if k == 1 {
            self.v1
        } else {
            self.v2
        }
    }
}

/// Whether pixel `(r, c)` lies on the drawn outline: inside the clamped
/// rectangle `[x_min, x_max) × [y_min, y_max)` and within `t` pixels of one
/// of its edges.
pub open spec fn on_border(
    r: int,
    c: int,
    x_min: int,
    x_max: int,
    y_min: int,
    y_max: int,
    t: int,
) -> bool {
    &&& x_min <= c < x_max
    &&& y_min <= r < y_max
    &&& (r < y_min + t || r >= y_max - t || c < x_min + t || c >= x_max - t)
}

/// The byte index of channel `k` of pixel `(r, c)` in a 3-channel matrix
/// with stride `step`.
pub open spec fn pix(step: int, r: int, c: int, k: int) -> int {
    r * step + 3 * c + k
}

/// Distinct pixels of a 3-channel strided image occupy distinct bytes.
proof fn lemma_pix_injective(
    step: int,
    cols: int,
    r1: int,
    c1: int,
    k1: int,
    r2: int,
    c2: int,
    k2: int,
)
    by (nonlinear_arith)
    requires
        step >= 3 * cols,
        0 <= r1,
        0 <= r2,
        0 <= c1 < cols,
        0 <= c2 < cols,
        0 <= k1 < 3,
        0 <= k2 < 3,
        r1 != r2 || c1 != c2 || k1 != k2,
    ensures
        pix(step, r1, c1, k1) != pix(step, r2, c2, k2),
{
}

/// A pixel's bytes lie within the buffer of a well-formed 3-channel matrix.
proof fn lemma_pix_in_bounds(step: int, cols: int, rows: int, len: int, r: int, c: int)
    by (nonlinear_arith)
    requires
        step >= 3 * cols,
        len >= rows * step,
        0 <= r < rows,
        0 <= c < cols,
    ensures
        0 <= pix(step, r, c, 0),
        pix(step, r, c, 2) < len,
{
}

/// Draws the outline of `rect`, `thickness` pixels thick, onto a 3-channel
/// matrix, clamping to the image. Every channel of every pixel on the
/// outline becomes the corresponding component of `color`; every other pixel
/// keeps its bytes. A rectangle whose clamped area is empty, or a thickness
/// of zero or less, draws nothing.
pub fn rectangle(mat: &mut Mat, rect: Rect, color: Scalar, thickness: i32)
    requires
        old(mat).wf(),
        old(mat).channels == 3,
    ensures
        final(mat).wf(),
        final(mat).rows == old(mat).rows,
        final(mat).cols == old(mat).cols,
        final(mat).step == old(mat).step,
        final(mat).channels == old(mat).channels,
        final(mat).data@.len() == old(mat).data@.len(),
        ({
            let x_min = if rect.x > 0 { rect.x as int } else { 0 };
            let y_min = if rect.y > 0 { rect.y as int } else { 0 };
            let x_max = if rect.x + rect.width < old(mat).cols {
                rect.x + rect.width
            } else {
                old(mat).cols as int
            };
            let y_max = if rect.y + rect.height < old(mat).rows {
                rect.y + rect.height
            } else {
                old(mat).rows as int
            };
            forall|r: int, c: int, k: int|
                0 <= r < old(mat).rows && 0 <= c < old(mat).cols && 0 <= k < 3
                    ==> final(mat).data@[#[trigger] pix(old(mat).step as int, r, c, k)] == (
                if on_border(r, c, x_min, x_max, y_min, y_max, thickness as int) {
                    color.sel(k)
                } else {
                    old(mat).data@[pix(old(mat).step as int, r, c, k)]
                })
        }),
{
    let x_min: i32 = if rect.x > 0 {
        rect.x
    } else {
        0
    };
    let y_min: i32 = if rect.y > 0 {
        rect.y
    } else {
        0
    };
    let x_max_w: i64 = rect.x as i64 + rect.width as i64;
    let y_max_h: i64 = rect.y as i64 + rect.height as i64;
    let x_max: i32 = if x_max_w >= mat.cols as i64 {
        mat.cols
    } else if x_max_w <= 0 {
        0
    } else {
        x_max_w as i32
    };
    let y_max: i32 = if y_max_h >= mat.rows as i64 {
        mat.rows
    } else if y_max_h <= 0 {
        0
    } else {
        y_max_h as i32
    };
    if x_min >= x_max || y_min >= y_max {
        return ;
    }
    let step = mat.step;
    let cols = mat.cols;
    let rows = mat.rows;
    let total = mat.data.len();

    let mut r: i32 = y_min;
    while r < y_max
        invariant
            mat.wf(),
            mat.rows == rows,
            mat.cols == cols,
            mat.step == step,
            mat.channels == 3,
            mat.data@.len() == old(mat).data@.len(),
            total == mat.data@.len(),
            0 <= x_min < x_max <= cols,
            0 <= y_min <= r <= y_max <= rows,
            x_max == (if rect.x + rect.width < cols {
                rect.x + rect.width
            } else {
                cols as int
            }),
            y_max == (if rect.y + rect.height < rows {
                rect.y + rect.height
            } else {
                rows as int
            }),
            forall|rr: int, cc: int, k: int|
                0 <= rr < rows && 0 <= cc < cols && 0 <= k < 3 ==> mat.data@[#[trigger] pix(
                    step as int,
                    rr,
                    cc,
                    k,
                )] == (if rr < r && on_border(
                    rr,
                    cc,
                    x_min as int,
                    x_max as int,
                    y_min as int,
                    y_max as int,
                    thickness as int,
                ) {
                    color.sel(k)
                } else {
                    old(mat).data@[pix(step as int, rr, cc, k)]
                }),
        decreases y_max - r,
    {
        let mut c: i32 = x_min;
        while c < x_max
            invariant
                mat.wf(),
                mat.rows == rows,
                mat.cols == cols,
                mat.step == step,
                mat.channels == 3,
                mat.data@.len() == old(mat).data@.len(),
                total == mat.data@.len(),
                0 <= x_min <= c <= x_max <= cols,
                0 <= y_min <= r < y_max <= rows,
                forall|rr: int, cc: int, k: int|
                    0 <= rr < rows && 0 <= cc < cols && 0 <= k < 3 ==> mat.data@[#[trigger] pix(
                        step as int,
                        rr,
                        cc,
                        k,
                    )] == (if (rr < r || (rr == r && cc < c)) && on_border(
                        rr,
                        cc,
                        x_min as int,
                        x_max as int,
                        y_min as int,
                        y_max as int,
                        thickness as int,
                    ) {
                        color.sel(k)
                    } else {
                        old(mat).data@[pix(step as int, rr, cc, k)]
                    }),
            decreases x_max - c,
        {
            let paint = (r as i64) < (y_min as i64) + (thickness as i64) || (r as i64) >= (
            y_max as i64) - (thickness as i64) || (c as i64) < (x_min as i64) + (thickness as i64)
                || (c as i64) >= (x_max as i64) - (thickness as i64);
            if paint {
                proof {
                    lemma_pix_in_bounds(
                        step as int,
                        cols as int,
                        rows as int,
                        total as int,
                        r as int,
                        c as int,
                    );
                    assert(r as int * step as int + 3 * (c as int) + 2 < total) by {
                        assert(pix(step as int, r as int, c as int, 2) < total);
                    }
                }
                let ghost pre = mat.data@;
                let base = (r as usize) * step + 3 * (c as usize);
                mat.data.set(base, color.v0);
                mat.data.set(base + 1, color.v1);
                mat.data.set(base + 2, color.v2);
                proof {
                    assert forall|rr: int, cc: int, k: int|
                        0 <= rr < rows && 0 <= cc < cols && 0 <= k < 3 && !(rr == r as int && cc
                            == c as int) implies mat.data@[#[trigger] pix(step as int, rr, cc, k)]
                        == pre[pix(step as int, rr, cc, k)] by {
                        lemma_pix_injective(
                            step as int,
                            cols as int,
                            rr,
                            cc,
                            k,
                            r as int,
                            c as int,
                            0,
                        );
                        lemma_pix_injective(
                            step as int,
                            cols as int,
                            rr,
                            cc,
                            k,
                            r as int,
                            c as int,
                            1,
                        );
                        lemma_pix_injective(
                            step as int,
                            cols as int,
                            rr,
                            cc,
                            k,
                            r as int,
                            c as int,
                            2,
                        );
                        lemma_pix_in_bounds(
                            step as int,
                            cols as int,
                            rows as int,
                            total as int,
                            rr,
                            cc,
                        );
                    }
                    assert(mat.data@[pix(step as int, r as int, c as int, 0)] == color.v0);
                    assert(mat.data@[pix(step as int, r as int, c as int, 1)] == color.v1);
                    assert(mat.data@[pix(step as int, r as int, c as int, 2)] == color.v2);
                }
            }
            c = c + 1;
        }
        r = r + 1;
    }
}

} // verus!
