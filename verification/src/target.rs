//! The render target contract and a plain pixel buffer satisfying it.
//!
//! The rasterizer never reads a target: it only asks its size and writes
//! colors.  A target chooses its own stored pixel encoding; the trait
//! exposes it as the spec function `encode_spec`, so that the
//! rasterizer's contract can name the exact word each covered pixel
//! holds afterwards.

use vstd::prelude::*;

verus! {

use crate::fixed::FX_ONE;
use crate::fixed::div_trunc;
use crate::fixed::fx_clamp;
use crate::fixed::tdiv;
use crate::vec4::Vec4;

/// What the rasterizer requires of a render target.
pub trait TargetBuffer: Sized {
    /// The target's own well-formedness: sizes consistent with storage.
    spec fn t_wf(&self) -> bool;

    /// The width in pixels.
    spec fn t_width(&self) -> int;

    /// The height in pixels.
    spec fn t_height(&self) -> int;

    /// The stored word for the pixel at column `x`, row `y`.
    spec fn pixel(&self, x: int, y: int) -> u32;

    /// How this target encodes a color as a stored word.
    spec fn encode_spec(color: Vec4) -> u32;

    /// Reports the width in pixels.
    fn width(&self) -> (w: i32)
        requires
            self.t_wf(),
        ensures
            w == self.t_width(),
    ;

    /// Reports the height in pixels.
    fn height(&self) -> (h: i32)
        requires
            self.t_wf(),
        ensures
            h == self.t_height(),
    ;

    /// Writes `color` to the pixel at column `x`, row `y`; every other
    /// pixel keeps its word, and the size does not change.
    fn set(&mut self, x: i32, y: i32, color: Vec4)
        requires
            old(self).t_wf(),
            0 <= x < old(self).t_width(),
            0 <= y < old(self).t_height(),
        ensures
            final(self).t_wf(),
            final(self).t_width() == old(self).t_width(),
            final(self).t_height() == old(self).t_height(),
            final(self).pixel(x as int, y as int) == Self::encode_spec(color),
            forall|i: int, j: int|
                0 <= i < old(self).t_width() && 0 <= j < old(self).t_height() && !(i == x && j == y)
                    ==> final(self).pixel(i, j) == old(self).pixel(i, j),
    ;
}

/// One color channel scaled to a byte: the component is pinned to the
/// unit interval and mapped onto 0 through 255.
pub open spec fn channel_s(c: int) -> int {
    tdiv(vstd::math::max(0, vstd::math::min(c, FX_ONE as int)) * 255, FX_ONE as int)
}

/// The packed ARGB word a [`Buffer`] stores for a color: alpha in the
/// top byte, then red, green, blue.
pub open spec fn pack_s(c: Vec4) -> u32 {
    (channel_s(c.w as int) * 0x100_0000 + channel_s(c.x as int) * 0x1_0000 + channel_s(c.y as int)
        * 0x100 + channel_s(c.z as int)) as u32
}

/// One color channel of `v`, as a byte.
pub fn channel(v: i64) -> (b: u32)
    ensures
        b == channel_s(v as int),
        b <= 255,
{
    let clamped: i64 = fx_clamp(v, 0, FX_ONE);
    proof {
        crate::fixed::lemma_tdiv_mag(clamped * 255, FX_ONE as int);
        vstd::arithmetic::div_mod::lemma_div_is_ordered(
            clamped * 255,
            255 * (FX_ONE as int),
            FX_ONE as int,
        );
        vstd::arithmetic::div_mod::lemma_div_by_multiple(255, FX_ONE as int);
    }
    let q: i64 = div_trunc(clamped * 255, FX_ONE);
    q as u32
}

/// Packs a color into the ARGB word a [`Buffer`] stores.
pub fn pack_color(c: &Vec4) -> (p: u32)
    ensures
        p == pack_s(*c),
{
    let a: u32 = channel(c.w);
    let r: u32 = channel(c.x);
    let g: u32 = channel(c.y);
    let b: u32 = channel(c.z);
    a * 0x100_0000 + r * 0x1_0000 + g * 0x100 + b
}

/// A row-major grid of packed ARGB pixels.
pub struct Buffer {
    pub width: usize,
    pub height: usize,
    pub data: Vec<u32>,
}

impl Buffer {
    /// The size invariant: one stored word per pixel, and sizes small
    /// enough for pixel arithmetic never to overflow.
    pub open spec fn wf(&self) -> bool {
        self.data@.len() == self.width * self.height && self.width <= 4096 && self.height <= 4096
    }

    /// The stored word for the pixel at column `x`, row `y`.
    pub open spec fn at(&self, x: int, y: int) -> u32 {
        self.data@[x + y * self.width]
    }

    /// Allocates a black (all-zero) pixel grid.
    pub fn new(width: usize, height: usize) -> (buffer: Buffer)
        requires
            width <= 4096,
            height <= 4096,
        ensures
            buffer.wf(),
            buffer.width == width,
            buffer.height == height,
            forall|i: int| 0 <= i < buffer.data@.len() ==> buffer.data@[i] == 0u32,
    {
        proof {
            assert(width * height <= 0x100_0000) by (nonlinear_arith)
                requires
                    width <= 4096,
                    height <= 4096;
        }
        let total: usize = width * height;
        let mut data: Vec<u32> = Vec::new();
        let mut n: usize = 0;
        while n < total
            invariant
                n <= total,
                data@.len() == n,
                forall|i: int| 0 <= i < n ==> data@[i] == 0u32,
            decreases total - n,
        {
            data.push(0u32);
            n = n + 1;
        }
        Buffer { width, height, data }
    }

    /// Stores the word `c` for the pixel at column `x`, row `y`.
    pub fn set(&mut self, x: usize, y: usize, c: u32)
        requires
            old(self).wf(),
            x < old(self).width,
            y < old(self).height,
        ensures
            final(self).wf(),
            final(self).width == old(self).width,
            final(self).height == old(self).height,
            final(self).at(x as int, y as int) == c,
            forall|i: int| 0 <= i < old(self).data@.len() && i != x + y * old(self).width
                ==> final(self).data@[i] == old(self).data@[i],
    {
        let len: usize = self.data.len();
        proof {
            crate::depth::lemma_row_major_index_in_range(
                x as int,
                y as int,
                self.width as int,
                self.height as int,
            );
        }
        let index: usize = x + y * self.width;
        assert(index < len);
        self.data[index] = c;
    }

    /// Fills every pixel with the word `c`.
    pub fn clear(&mut self, c: u32)
        ensures
            final(self).wf() == old(self).wf(),
            final(self).width == old(self).width,
            final(self).height == old(self).height,
            final(self).data@.len() == old(self).data@.len(),
            forall|i: int| 0 <= i < final(self).data@.len() ==> final(self).data@[i] == c,
    {
        let total: usize = self.data.len();
        let mut n: usize = 0;
        while n < total
            invariant
                n <= total,
                self.data@.len() == total,
                self.width == old(self).width,
                self.height == old(self).height,
                forall|i: int| 0 <= i < n ==> self.data@[i] == c,
            decreases total - n,
        {
            self.data[n] = c;
            n = n + 1;
        }
    }
}

impl TargetBuffer for Buffer {
    open spec fn t_wf(&self) -> bool {
        self.wf()
    }

    open spec fn t_width(&self) -> int {
        self.width as int
    }

    open spec fn t_height(&self) -> int {
        self.height as int
    }

    open spec fn pixel(&self, x: int, y: int) -> u32 {
        self.at(x, y)
    }

    open spec fn encode_spec(color: Vec4) -> u32 {
        pack_s(color)
    }

    fn width(&self) -> (w: i32) {
        self.width as i32
    }

    fn height(&self) -> (h: i32) {
        self.height as i32
    }

    fn set(&mut self, x: i32, y: i32, color: Vec4) {
        let packed: u32 = pack_color(&color);
        Buffer::set(self, x as usize, y as usize, packed);
        proof {
            crate::depth::lemma_row_major_index_in_range(
                x as int,
                y as int,
                self.width as int,
                self.height as int,
            );
            assert forall|i: int, j: int|
                0 <= i < old(self).t_width() && 0 <= j < old(self).t_height() && !(i == x && j == y)
                    implies self.pixel(i, j) == old(self).pixel(i, j) by {
                crate::depth::lemma_row_major_index_in_range(
                    i,
                    j,
                    self.width as int,
                    self.height as int,
                );
                lemma_row_major_index_injective(
                    i,
                    j,
                    x as int,
                    y as int,
                    self.width as int,
                );
            }
        }
    }
}

/// Distinct pixel coordinates have distinct row-major indices.
pub proof fn lemma_row_major_index_injective(x0: int, y0: int, x1: int, y1: int, w: int)
    by (nonlinear_arith)
    requires
        0 <= x0 < w,
        0 <= x1 < w,
        0 <= y0,
        0 <= y1,
        !(x0 == x1 && y0 == y1),
    ensures
        x0 + y0 * w != x1 + y1 * w,
{
}

} // verus!
