//! An owned, strided byte matrix — the facade's image container.

use vstd::prelude::*;
use vstd::slice::slice_subrange;

verus! {

/// a·c ≤ b·c for a ≤ b and nonnegative c.
proof fn lemma_mul_le_mono(a: int, b: int, c: int)
    by (nonlinear_arith)
    requires
        a <= b,
        0 <= c,
    ensures
        a * c <= b * c,
{
}

/// An image matrix that owns its bytes and supports a strided layout: each
/// of `rows` rows starts `step` bytes after the previous and carries
/// `cols · channels` payload bytes (the rest of the row is padding).
#[derive(Debug, Clone)]
pub struct Mat {
    /// The pixel bytes, row-major with stride `step`.
    pub data: Vec<u8>,
    /// Number of rows (the image height).
    pub rows: i32,
    /// Number of columns (the image width).
    pub cols: i32,
    /// Bytes from one row's start to the next; at least `cols · channels`.
    pub step: usize,
    /// Bytes per pixel (3 for BGR).
    pub channels: u8,
}

impl Mat {
    /// The layout invariant: nonnegative geometry, a stride covering each
    /// row's payload, and a buffer covering all rows.
    pub open spec fn wf(&self) -> bool {
        &&& 0 <= self.rows
        &&& 0 <= self.cols
        &&& self.step >= self.cols * self.channels
        &&& self.data@.len() >= self.rows * self.step
    }

    /// A zero-filled matrix with a packed layout (`step == cols · channels`).
    pub fn new(rows: i32, cols: i32, channels: u8) -> (r: Self)
        requires
            0 <= rows,
            0 <= cols,
            cols * channels <= i32::MAX,
            rows * (cols * channels) <= usize::MAX,
        ensures
            r.wf(),
            r.rows == rows,
            r.cols == cols,
            r.channels == channels,
            r.step == cols * channels,
            r.data@.len() == rows * r.step,
            forall|i: int| 0 <= i < r.data@.len() ==> r.data@[i] == 0u8,
    {
        let step = (cols * channels as i32) as usize;
        proof {
            lemma_mul_le_mono(0, rows as int, step as int);
        }
        let size = (rows as usize) * step;
        let mut data: Vec<u8> = Vec::new();
        let mut i: usize = 0;
        while i < size
            invariant
                i <= size,
                data@.len() == i,
                forall|j: int| 0 <= j < i ==> data@[j] == 0u8,
            decreases size - i,
        {
            data.push(0);
            i = i + 1;
        }
        Mat { data, rows, cols, step, channels }
    }

    /// An empty matrix, ready to serve as an output buffer.
    pub fn empty() -> (r: Self)
        ensures
            r.wf(),
            r.rows == 0,
            r.cols == 0,
            r.step == 0,
            r.channels == 0,
            r.data@.len() == 0,
    {
        Mat { data: Vec::new(), rows: 0, cols: 0, step: 0, channels: 0 }
    }

    /// Whether the matrix holds no image.
    pub fn is_empty(&self) -> (r: bool)
        ensures
            r == (self.data@.len() == 0 || self.rows == 0 || self.cols == 0),
    {
        self.data.len() == 0 || self.rows == 0 || self.cols == 0
    }

    /// The payload bytes of one row, without its trailing padding.
    pub fn row_bytes(&self, row: i32) -> (r: &[u8])
        requires
            self.wf(),
            0 <= row < self.rows,
        ensures
            r@ == self.data@.subrange(
                row * self.step,
                row * self.step + self.cols * self.channels,
            ),
    {
        let total = self.data.len();
        proof {
            lemma_mul_le_mono(row as int + 1, self.rows as int, self.step as int);
            lemma_mul_le_mono(row as int, self.rows as int, self.step as int);
            assert((row as int + 1) * self.step == row as int * self.step + self.step)
                by (nonlinear_arith);
        }
        let start = (row as usize) * self.step;
        let end = start + (self.cols as usize) * (self.channels as usize);
        slice_subrange(self.data.as_slice(), start, end)
    }
}

} // verus!
