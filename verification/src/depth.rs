//! A flat width-by-height grid of per-pixel depth values.
//!
//! Depths are 16.16 fixed-point scalars.  The grid is allocated once and
//! never resized; `clear` resets every cell to the far sentinel so that a
//! nearer-wins comparison accepts the first fragment on each pixel.

use vstd::prelude::*;

verus! {

/// The sentinel stored by `clear`: farther than any depth the rasterizer
/// can compute, so a cleared cell loses every nearer-wins comparison.
pub const DEPTH_FAR: i64 = 0x4000_0000_0000_0000;

/// A row-major grid of per-pixel depth values with a fixed size.
pub struct DepthBuffer {
    pub data: Vec<i64>,
    pub width: usize,
    pub height: usize,
}

impl DepthBuffer {
    /// The size invariant: the flat store holds exactly one cell per pixel.
    pub open spec fn wf(&self) -> bool {
        self.data@.len() == self.width * self.height
    }

    /// The depth stored for the pixel at column `x`, row `y`.
    pub open spec fn at(&self, x: int, y: int) -> int {
        self.data@[x + y * self.width] as int
    }

    /// Allocates a zero-filled grid of `width` by `height` cells.
    pub fn new(width: usize, height: usize) -> (buffer: DepthBuffer)
        requires
            width * height <= usize::MAX,
        ensures
            buffer.wf(),
            buffer.width == width,
            buffer.height == height,
            forall|i: int| 0 <= i < buffer.data@.len() ==> buffer.data@[i] == 0i64,
    {
        let total: usize = width * height;
        let mut data: Vec<i64> = Vec::new();
        let mut n: usize = 0;
        while n < total
            invariant
                n <= total,
                data@.len() == n,
                forall|i: int| 0 <= i < n ==> data@[i] == 0i64,
            decreases total - n,
        {
            data.push(0i64);
            n = n + 1;
        }
        DepthBuffer { width, height, data }
    }

    /// Resets every cell to [`DEPTH_FAR`], so that `get` afterwards
    /// returns the far sentinel at every coordinate of the grid.
    pub fn clear(&mut self)
        ensures
            final(self).wf() == old(self).wf(),
            final(self).width == old(self).width,
            final(self).height == old(self).height,
            final(self).data@.len() == old(self).data@.len(),
            forall|i: int| 0 <= i < final(self).data@.len() ==> final(self).data@[i] == DEPTH_FAR,
    {
        let total: usize = self.data.len();
        let mut n: usize = 0;
        while n < total
            invariant
                n <= total,
                self.data@.len() == total,
                self.width == old(self).width,
                self.height == old(self).height,
                forall|i: int| 0 <= i < n ==> self.data@[i] == DEPTH_FAR,
            decreases total - n,
        {
            self.data[n] = DEPTH_FAR;
            n = n + 1;
        }
    }

    /// Stores `z` for the pixel at column `x`, row `y`; every other cell
    /// keeps its value.
    pub fn set(&mut self, x: usize, y: usize, z: i64)
        requires
            old(self).wf(),
            x < old(self).width,
            y < old(self).height,
        ensures
            final(self).wf(),
            final(self).width == old(self).width,
            final(self).height == old(self).height,
            final(self).data@ == old(self).data@.update(x + y * old(self).width, z),
            final(self).at(x as int, y as int) == z,
            forall|i: int| 0 <= i < old(self).data@.len() && i != x + y * old(self).width
                ==> final(self).data@[i] == old(self).data@[i],
    {
        let len: usize = self.data.len();
        proof {
            lemma_row_major_index_in_range(x as int, y as int, self.width as int, self.height as int);
        }
        let index: usize = x + y * self.width;
        assert(index < len);
        self.data[index] = z;
    }

    /// Reads the depth stored for the pixel at column `x`, row `y`.
    pub fn get(&self, x: usize, y: usize) -> (z: i64)
        requires
            self.wf(),
            x < self.width,
            y < self.height,
        ensures
            z == self.at(x as int, y as int),
    {
        let len: usize = self.data.len();
        proof {
            lemma_row_major_index_in_range(x as int, y as int, self.width as int, self.height as int);
        }
        let index: usize = x + y * self.width;
        assert(index < len);
        self.data[index]
    }
}

/// A row-major index lies inside the flat store: for `x < w` and `y < h`,
/// `x + y * w` is below `w * h`.
pub proof fn lemma_row_major_index_in_range(x: int, y: int, w: int, h: int)
    by (nonlinear_arith)
    requires
        0 <= x < w,
        0 <= y < h,
    ensures
        0 <= x + y * w < w * h,
{
}

/// After `clear`, `get` returns the far sentinel at every coordinate of
/// the grid, whatever the grid's size.
pub proof fn lemma_cleared_reads_far(buffer: DepthBuffer, x: int, y: int)
    requires
        buffer.wf(),
        0 <= x < buffer.width,
        0 <= y < buffer.height,
        forall|i: int| 0 <= i < buffer.data@.len() ==> buffer.data@[i] == DEPTH_FAR,
    ensures
        buffer.at(x, y) == DEPTH_FAR,
{
    lemma_row_major_index_in_range(x, y, buffer.width as int, buffer.height as int);
}

} // verus!
