//! Pixel conversions of the facade: YUYV to BGR (the BT.601 integer
//! approximation), byte-order swaps between BGR and RGB, and packing a BGR
//! matrix into the 32-bit words a framebuffer window wants.

use vstd::arithmetic::div_mod::lemma_hoist_over_denominator;
use vstd::prelude::*;

use crate::error::CameraError;
use crate::mat::Mat;

verus! {

/// Saturates an integer to one byte.
pub open spec fn clamp_byte(v: int) -> u8 {
    if v < 0 {
        0u8
    } else if v > 255 {
        255u8
    } else {
        v as u8
    }
}

/// The blue channel of BT.601 YUV: clamp((298·(y−16) + 516·(u−128) + 128) / 256).
pub open spec fn yuv_b(y: u8, u: u8) -> u8 {
    clamp_byte((298 * (y - 16) + 516 * (u - 128) + 128) / 256)
}

/// The green channel of BT.601 YUV.
pub open spec fn yuv_g(y: u8, u: u8, v: u8) -> u8 {
    clamp_byte((298 * (y - 16) - 100 * (u - 128) - 208 * (v - 128) + 128) / 256)
}

/// The red channel of BT.601 YUV.
pub open spec fn yuv_r(y: u8, v: u8) -> u8 {
    clamp_byte((298 * (y - 16) + 409 * (v - 128) + 128) / 256)
}

/// Saturates a wide intermediate to one byte.
pub fn clamp(val: i32) -> (r: u8)
    ensures
        r == clamp_byte(val as int),
{
    if val < 0 {
        0
    } else if val > 255 {
        255
    } else {
        val as u8
    }
}

/// Floor division of a small intermediate by 256, computed on a shifted
/// nonnegative range so the machine division is the mathematical one.
fn floor_div_256(t: i32) -> (r: i32)
    requires
        -262_144 <= t <= 262_143,
    ensures
        r == t as int / 256,
{
    let shifted: u32 = (t + 262_144) as u32;
    let q: u32 = shifted / 256;
    proof {
        lemma_hoist_over_denominator(t as int, 1024, 256nat);
    }
    (q as i32) - 1024
}

/// The blue channel of one YUV sample.
fn yuv_to_b(y: u8, u: u8) -> (r: u8)
    ensures
        r == yuv_b(y, u),
{
    let t: i32 = 298 * (y as i32 - 16) + 516 * (u as i32 - 128) + 128;
    clamp(floor_div_256(t))
}

/// The green channel of one YUV sample.
fn yuv_to_g(y: u8, u: u8, v: u8) -> (r: u8)
    ensures
        r == yuv_g(y, u, v),
{
    let t: i32 = 298 * (y as i32 - 16) - 100 * (u as i32 - 128) - 208 * (v as i32 - 128) + 128;
    clamp(floor_div_256(t))
}

/// The red channel of one YUV sample.
fn yuv_to_r(y: u8, v: u8) -> (r: u8)
    ensures
        r == yuv_r(y, v),
{
    let t: i32 = 298 * (y as i32 - 16) + 409 * (v as i32 - 128) + 128;
    clamp(floor_div_256(t))
}

/// What one converted YUYV pair must look like in the output: macro-pixel
/// `p` reads `[y0 u y1 v]` at `4p` and writes two BGR pixels at `6p`.
pub open spec fn yuyv_pair_ok(src: Seq<u8>, dest: Seq<u8>, p: int) -> bool {
    let y0 = src[4 * p];
    let u = src[4 * p + 1];
    let y1 = src[4 * p + 2];
    let v = src[4 * p + 3];
    &&& dest[6 * p] == yuv_b(y0, u)
    &&& dest[6 * p + 1] == yuv_g(y0, u, v)
    &&& dest[6 * p + 2] == yuv_r(y0, v)
    &&& dest[6 * p + 3] == yuv_b(y1, u)
    &&& dest[6 * p + 4] == yuv_g(y1, u, v)
    &&& dest[6 * p + 5] == yuv_r(y1, v)
}

/// Converts a packed YUYV image to packed BGR. A source shorter than the
/// full `2·width·height` bytes leaves the destination untouched (the frame
/// is torn); otherwise every macro-pixel is converted and the bytes past the
/// converted region keep their old values.
pub fn yuyv_to_bgr(src: &Vec<u8>, dest: &mut Vec<u8>, width: usize, height: usize)
    requires
        width * height * 3 <= usize::MAX,
        old(dest)@.len() >= width * height * 3,
    ensures
        final(dest)@.len() == old(dest)@.len(),
        src@.len() < width * height * 2 ==> final(dest)@ == old(dest)@,
        src@.len() >= width * height * 2 ==> {
            &&& forall|p: int|
                0 <= p < (width * height) as int / 2 ==> #[trigger] yuyv_pair_ok(
                    src@,
                    final(dest)@,
                    p,
                )
            &&& forall|j: int|
                6 * ((width * height) as int / 2) <= j < final(dest)@.len() ==> final(dest)@[j]
                    == old(dest)@[j]
        },
{
    let frame_len = width * height * 2;
    if src.len() < frame_len {
        return ;
    }
    let pairs = (width * height) / 2;
    let mut p: usize = 0;
    while p < pairs
        invariant
            pairs == (width * height) as int / 2,
            width * height * 3 <= usize::MAX,
            src@.len() >= width * height * 2,
            dest@.len() == old(dest)@.len(),
            dest@.len() >= width * height * 3,
            p <= pairs,
            forall|q: int| 0 <= q < p ==> #[trigger] yuyv_pair_ok(src@, dest@, q),
            forall|j: int| 6 * p <= j < dest@.len() ==> dest@[j] == old(dest)@[j],
        decreases pairs - p,
    {
        proof {
            assert(4 * p + 3 < width * height * 2) by (nonlinear_arith)
                requires
                    p < (width * height) as int / 2,
            ;
            assert(6 * p + 5 < width * height * 3) by (nonlinear_arith)
                requires
                    p < (width * height) as int / 2,
            ;
        }
        let ghost pre = dest@;
        let si = 4 * p;
        let di = 6 * p;
        let y0 = src[si];
        let u = src[si + 1];
        let y1 = src[si + 2];
        let v = src[si + 3];
        dest.set(di, yuv_to_b(y0, u));
        dest.set(di + 1, yuv_to_g(y0, u, v));
        dest.set(di + 2, yuv_to_r(y0, v));
        dest.set(di + 3, yuv_to_b(y1, u));
        dest.set(di + 4, yuv_to_g(y1, u, v));
        dest.set(di + 5, yuv_to_r(y1, v));
        proof {
            assert(yuyv_pair_ok(src@, dest@, p as int));
            assert forall|q: int| 0 <= q < p implies #[trigger] yuyv_pair_ok(src@, dest@, q) by {
                assert(yuyv_pair_ok(src@, pre, q));
            }
        }
        p = p + 1;
    }
}

/// What one RGB-to-BGR swapped pixel must look like.
pub open spec fn bgr_of_rgb_ok(rgb: Seq<u8>, bgr: Seq<u8>, p: int) -> bool {
    &&& bgr[3 * p] == rgb[3 * p + 2]
    &&& bgr[3 * p + 1] == rgb[3 * p + 1]
    &&& bgr[3 * p + 2] == rgb[3 * p]
}

/// Reorders a packed 3-channel image between RGB and BGR (the swap is its
/// own inverse). The output has one pixel per full 3-byte pixel of the
/// input.
pub fn swap_rb_channels(src: &Vec<u8>) -> (r: Vec<u8>)
    ensures
        r@.len() == 3 * (src@.len() as int / 3),
        forall|p: int| 0 <= p < src@.len() as int / 3 ==> #[trigger] bgr_of_rgb_ok(src@, r@, p),
{
    let n = src.len();
    let pixels = n / 3;
    let mut out: Vec<u8> = Vec::new();
    let mut p: usize = 0;
    while p < pixels
        invariant
            n == src@.len(),
            pixels == src@.len() as int / 3,
            out@.len() == 3 * p,
            p <= pixels,
            forall|q: int| 0 <= q < p ==> #[trigger] bgr_of_rgb_ok(src@, out@, q),
        decreases pixels - p,
    {
        proof {
            assert(3 * p + 2 < src@.len()) by (nonlinear_arith)
                requires
                    p < src@.len() as int / 3,
            ;
        }
        let ghost pre = out@;
        let base = 3 * p;
        out.push(src[base + 2]);
        out.push(src[base + 1]);
        out.push(src[base]);
        proof {
            assert(bgr_of_rgb_ok(src@, out@, p as int));
            assert forall|q: int| 0 <= q < p implies #[trigger] bgr_of_rgb_ok(src@, out@, q) by {
                assert(bgr_of_rgb_ok(src@, pre, q));
            }
        }
        p = p + 1;
    }
    proof {
        assert(out@.len() == 3 * (src@.len() as int / 3));
    }
    out
}

/// The packed 0x00RRGGBB word a framebuffer wants for the BGR pixel at row
/// `r`, column `c` of a matrix.
pub open spec fn packed_pixel(m: Mat, r: int, c: int) -> u32 {
    let b = m.data@[r * m.step + 3 * c];
    let g = m.data@[r * m.step + 3 * c + 1];
    let red = m.data@[r * m.step + 3 * c + 2];
    (red * 0x1_0000 + g * 0x100 + b) as u32
}

/// Packs a 3-channel BGR matrix into one 0x00RRGGBB word per pixel, row by
/// row; a matrix with any other channel count is refused.
pub fn mat_to_u32_buffer(mat: &Mat) -> (r: Result<Vec<u32>, CameraError>)
    requires
        mat.wf(),
    ensures
        r is Ok <==> mat.channels == 3,
        r matches Ok(buf) ==> {
            &&& buf@.len() == mat.rows * mat.cols
            &&& forall|rr: int, cc: int|
                0 <= rr < mat.rows && 0 <= cc < mat.cols ==> buf@[rr * mat.cols + cc]
                    == #[trigger] packed_pixel(*mat, rr, cc)
        },
        r matches Err(e) ==> e matches CameraError::Io(_),
{
    if mat.channels != 3 {
        return Err(CameraError::Io("Only 3-channel images can be displayed".to_owned()));
    }
    let rows = mat.rows as usize;
    let cols = mat.cols as usize;
    let total = mat.data.len();
    let mut buf: Vec<u32> = Vec::new();
    let mut rr: usize = 0;
    while rr < rows
        invariant
            mat.wf(),
            mat.channels == 3,
            rows == mat.rows,
            cols == mat.cols,
            total == mat.data@.len(),
            rr <= rows,
            buf@.len() == rr * cols,
            forall|r2: int, c2: int|
                0 <= r2 < rr && 0 <= c2 < cols ==> buf@[r2 * cols + c2] == #[trigger] packed_pixel(
                    *mat,
                    r2,
                    c2,
                ),
        decreases rows - rr,
    {
        let mut cc: usize = 0;
        while cc < cols
            invariant
                mat.wf(),
                mat.channels == 3,
                rows == mat.rows,
                cols == mat.cols,
                total == mat.data@.len(),
                rr < rows,
                cc <= cols,
                buf@.len() == rr * cols + cc,
                forall|r2: int, c2: int|
                    0 <= r2 < rr && 0 <= c2 < cols ==> buf@[r2 * cols + c2]
                        == #[trigger] packed_pixel(*mat, r2, c2),
                forall|c2: int|
                    0 <= c2 < cc ==> buf@[rr * cols + c2] == #[trigger] packed_pixel(
                        *mat,
                        rr as int,
                        c2,
                    ),
            decreases cols - cc,
        {
            proof {
                assert(rr * mat.step + 3 * cc + 2 < mat.data@.len()) by (nonlinear_arith)
                    requires
                        0 <= rr < mat.rows,
                        0 <= cc < mat.cols,
                        mat.step >= mat.cols * 3,
                        mat.data@.len() >= mat.rows * mat.step,
                ;
            }
            let base = rr * mat.step + 3 * cc;
            let b = mat.data[base];
            let g = mat.data[base + 1];
            let red = mat.data[base + 2];
            let word: u32 = (red as u32) * 0x1_0000 + (g as u32) * 0x100 + (b as u32);
            buf.push(word);
            proof {
                assert forall|r2: int, c2: int|
                    0 <= r2 < rr && 0 <= c2 < cols implies buf@[r2 * cols + c2]
                    == #[trigger] packed_pixel(*mat, r2, c2) by {
                    lemma_row_major_in_range(r2, c2, rr as int, cols as int);
                }
                assert(buf@[rr as int * cols + cc] == packed_pixel(*mat, rr as int, cc as int));
            }
            cc = cc + 1;
        }
        proof {
            assert((rr + 1) * cols == rr * cols + cols) by (nonlinear_arith);
            assert forall|r2: int, c2: int|
                0 <= r2 < rr + 1 && 0 <= c2 < cols implies buf@[r2 * cols + c2]
                == #[trigger] packed_pixel(*mat, r2, c2) by {
                if r2 < rr {
                    lemma_row_major_in_range(r2, c2, rr as int, cols as int);
                }
            }
        }
        rr = rr + 1;
    }
    Ok(buf)
}

/// A row-major index of an earlier row lies below the current row's start.
proof fn lemma_row_major_in_range(r2: int, c2: int, rr: int, cols: int)
    by (nonlinear_arith)
    requires
        0 <= r2 < rr,
        0 <= c2 < cols,
    ensures
        0 <= r2 * cols + c2 < rr * cols,
{
}

} // verus!
