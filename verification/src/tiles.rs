//! The tile scheduler: how a frame is cut into tiles.
//!
//! A frame of `width` by `height` pixels is covered by a grid of square tiles
//! of side `tile_size`; the tiles of the last column and of the last row are
//! clipped to the frame. Tiles are numbered in row-major scan order.

use crate::raster::{blank, blank_pixel, filled, get_pixel, img_get_height, img_get_width};
use crate::raster::{is_packed, put_pixel};
use crate::raster::{img_height, img_width, is_put, packed, pixel_at, Rgba};
use imgref::ImgVec;
use std::sync::Arc;
use vstd::arithmetic::div_mod::{
    lemma_fundamental_div_mod, lemma_fundamental_div_mod_converse, lemma_mod_bound,
};
use vstd::prelude::*;

verus! {

/// How many pieces of size `b` are needed to cover a length `a`.
pub open spec fn ceil_div(a: nat, b: nat) -> nat
    recommends
        b > 0,
{
    ((a + b - 1) / (b as int)) as nat
}

/// The pieces cover the length, and the last piece is not empty.
pub proof fn lemma_ceil_div(a: nat, b: nat)
    requires
        b > 0,
    ensures
        a <= ceil_div(a, b) * b,
        a > 0 ==> (ceil_div(a, b) - 1) * b < a,
        a == 0 ==> ceil_div(a, b) == 0,
        ceil_div(a, b) <= a,
        ceil_div(a, b) == a / b + if a % b == 0 { 0nat } else { 1nat },
{
    let n = (a + b - 1) as int;
    let d = b as int;
    lemma_fundamental_div_mod(n, d);
    lemma_mod_bound(n, d);
    lemma_fundamental_div_mod(a as int, d);
    lemma_mod_bound(a as int, d);
    let c = n / d;
    let r = n % d;
    let q = (a as int) / d;
    let s = (a as int) % d;
    assert(n == d * c + r);
    assert(a == d * q + s);
    assert(c >= 0 && c * d >= a && (a > 0 ==> (c - 1) * d < a) && (a == 0 ==> c == 0) && c <= a
        && c == q + if s == 0 { 0int } else { 1int }) by (nonlinear_arith)
        requires
            n == a + d - 1,
            n == d * c + r,
            0 <= r < d,
            a == d * q + s,
            0 <= s < d,
            a >= 0,
            d > 0,
    ;
}

/// A rectangle of pixels inside a frame.
#[derive(Clone, Copy, Debug, PartialEq, Eq, Structural)]
pub struct Rect {
    pub left: usize,
    pub top: usize,
    pub width: usize,
    pub height: usize,
}

impl Rect {
    /// Whether the pixel in column `x` of row `y` lies in the rectangle.
    pub open spec fn contains(&self, x: int, y: int) -> bool {
        &&& self.left <= x < self.left + self.width
        &&& self.top <= y < self.top + self.height
    }
}

/// The size of a frame and of its tiles, and the size of the worker pool
/// that renders them.
#[derive(Copy, Clone, Debug)]
pub struct RenderParams {
    pub width: usize,
    pub height: usize,
    pub tile_size: usize,
    pub tile_queue: usize,
    pub threads: usize,
}

impl RenderParams {
    /// Parameters that the scheduler accepts: tiles are not empty, each side
    /// of the frame fits in 32 bits, and its pixels can be counted.
    pub open spec fn valid(&self) -> bool {
        &&& self.tile_size > 0
        &&& self.width <= u32::MAX
        &&& self.height <= u32::MAX
        &&& self.width * self.height <= usize::MAX
    }

    /// The number of tile columns.
    pub open spec fn cols(&self) -> nat {
        ceil_div(self.width as nat, self.tile_size as nat)
    }

    /// The number of tile rows.
    pub open spec fn rows(&self) -> nat {
        ceil_div(self.height as nat, self.tile_size as nat)
    }

    /// The number of tiles of one frame.
    pub open spec fn tile_count(&self) -> nat {
        self.cols() * self.rows()
    }

    /// The place of the `k`-th tile of a frame, in scan order.
    pub open spec fn tile_rect(&self, k: int) -> Rect {
        let left = (k % (self.cols() as int)) * self.tile_size;
        let top = (k / (self.cols() as int)) * self.tile_size;
        Rect {
            left: left as usize,
            top: top as usize,
            width: if self.width - left < self.tile_size {
                (self.width - left) as usize
            } else {
                self.tile_size
            },
            height: if self.height - top < self.tile_size {
                (self.height - top) as usize
            } else {
                self.tile_size
            },
        }
    }

    /// The number of the tile that holds the pixel in column `x` of row `y`.
    pub open spec fn tile_of(&self, x: int, y: int) -> int {
        (y / (self.tile_size as int)) * self.cols() + x / (self.tile_size as int)
    }

    /// Tests at run time whether the parameters are valid.
    pub fn is_valid(&self) -> (ok: bool)
        ensures
            ok == self.valid(),
    {
        self.tile_size > 0 && self.width <= 0xffff_ffff && self.height <= 0xffff_ffff
            && self.width.checked_mul(self.height).is_some()
    }

    /// The tiles of a frame are no more than its pixels.
    pub proof fn lemma_tile_count_bound(&self)
        requires
            self.valid(),
        ensures
            self.cols() <= self.width,
            self.rows() <= self.height,
            self.tile_count() <= self.width * self.height,
            self.width > 0 && self.height > 0 ==> self.tile_count() > 0,
    {
        lemma_ceil_div(self.width as nat, self.tile_size as nat);
        lemma_ceil_div(self.height as nat, self.tile_size as nat);
        let c = self.cols() as int;
        let r = self.rows() as int;
        let w = self.width as int;
        let h = self.height as int;
        let t = self.tile_size as int;
        assert(c * r <= w * h && (w > 0 && h > 0 ==> c * r > 0)) by (nonlinear_arith)
            requires
                0 <= c <= w,
                0 <= r <= h,
                t > 0,
                w <= c * t,
                h <= r * t,
        ;
    }

    /// The number of tiles that one frame is cut into.
    pub fn tiles_per_frame(&self) -> (n: usize)
        requires
            self.valid(),
        ensures
            n == self.tile_count(),
    {
        proof {
            lemma_ceil_div(self.width as nat, self.tile_size as nat);
            lemma_ceil_div(self.height as nat, self.tile_size as nat);
            self.lemma_tile_count_bound();
        }
        let tile_num_x: usize = self.width / self.tile_size + if self.width % self.tile_size
            == 0 {
            0
        } else {
            1
        };
        let tile_num_y: usize = self.height / self.tile_size + if self.height % self.tile_size
            == 0 {
            0
        } else {
            1
        };
        tile_num_x * tile_num_y
    }
}

impl RenderParams {
    /// Every tile lies inside the frame, is not empty, and is no larger than
    /// the tile size.
    pub proof fn lemma_tile_in_frame(&self, k: int)
        requires
            self.valid(),
            0 <= k < self.tile_count(),
        ensures
            self.tile_rect(k).left == (k % (self.cols() as int)) * self.tile_size,
            self.tile_rect(k).top == (k / (self.cols() as int)) * self.tile_size,
            0 < self.tile_rect(k).width <= self.tile_size,
            0 < self.tile_rect(k).height <= self.tile_size,
            self.tile_rect(k).left + self.tile_rect(k).width <= self.width,
            self.tile_rect(k).top + self.tile_rect(k).height <= self.height,
            self.tile_rect(k).width == self.tile_size || self.tile_rect(k).left
                + self.tile_rect(k).width == self.width,
            self.tile_rect(k).height == self.tile_size || self.tile_rect(k).top
                + self.tile_rect(k).height == self.height,
    {
        lemma_ceil_div(self.width as nat, self.tile_size as nat);
        lemma_ceil_div(self.height as nat, self.tile_size as nat);
        let c = self.cols() as int;
        let r = self.rows() as int;
        let t = self.tile_size as int;
        let w = self.width as int;
        let h = self.height as int;
        assert(c > 0 && r > 0) by (nonlinear_arith)
            requires
                0 <= k < c * r,
                c >= 0,
                r >= 0,
        ;
        lemma_fundamental_div_mod(k, c);
        lemma_mod_bound(k, c);
        let col = k % c;
        let row = k / c;
        assert(0 <= row < r) by (nonlinear_arith)
            requires
                k == c * row + col,
                0 <= col < c,
                0 <= k < c * r,
        ;
        assert(0 <= col * t < w && 0 <= row * t < h) by (nonlinear_arith)
            requires
                0 <= col < c,
                0 <= row < r,
                t > 0,
                (c - 1) * t < w,
                (r - 1) * t < h,
        ;
    }

    /// Every pixel of the frame lies in exactly one tile: the tiles leave no
    /// gap and do not overlap.
    pub proof fn lemma_pixel_in_one_tile(&self, x: int, y: int)
        requires
            self.valid(),
            0 <= x < self.width,
            0 <= y < self.height,
        ensures
            0 <= self.tile_of(x, y) < self.tile_count(),
            self.tile_rect(self.tile_of(x, y)).contains(x, y),
            forall|j: int|
                0 <= j < self.tile_count() && #[trigger] self.tile_rect(j).contains(x, y) ==> j
                    == self.tile_of(x, y),
    {
        lemma_ceil_div(self.width as nat, self.tile_size as nat);
        lemma_ceil_div(self.height as nat, self.tile_size as nat);
        let c = self.cols() as int;
        let r = self.rows() as int;
        let t = self.tile_size as int;
        let w = self.width as int;
        let h = self.height as int;
        let col = x / t;
        let row = y / t;
        lemma_fundamental_div_mod(x, t);
        lemma_mod_bound(x, t);
        lemma_fundamental_div_mod(y, t);
        lemma_mod_bound(y, t);
        let rx = x % t;
        let ry = y % t;
        assert(0 <= col < c && 0 <= row < r) by (nonlinear_arith)
            requires
                x == t * col + rx,
                y == t * row + ry,
                0 <= rx < t,
                0 <= ry < t,
                0 <= x < w,
                0 <= y < h,
                w <= c * t,
                h <= r * t,
                c >= 0,
                r >= 0,
        ;
        let k = self.tile_of(x, y);
        assert(k == row * c + col);
        assert(0 <= k < c * r) by (nonlinear_arith)
            requires
                k == row * c + col,
                0 <= col < c,
                0 <= row < r,
        ;
        assert(k == row * c + col ==> k == c * row + col) by (nonlinear_arith);
        lemma_fundamental_div_mod_converse(k, c, row, col);
        self.lemma_tile_in_frame(k);
        assert(col * t == t * col && row * t == t * row) by (nonlinear_arith);
        assert(self.tile_rect(k).contains(x, y));
        assert forall|j: int|
            0 <= j < self.tile_count() && #[trigger] self.tile_rect(j).contains(x, y) implies j
            == k by {
            self.lemma_tile_in_frame(j);
            lemma_fundamental_div_mod(j, c);
            lemma_mod_bound(j, c);
            let jc = j % c;
            let jr = j / c;
            let dx = x - jc * t;
            let dy = y - jr * t;
            assert(x == jc * t + dx ==> x == t * jc + dx) by (nonlinear_arith);
            assert(y == jr * t + dy ==> y == t * jr + dy) by (nonlinear_arith);
            lemma_fundamental_div_mod_converse(x, t, jc, dx);
            lemma_fundamental_div_mod_converse(y, t, jr, dy);
            assert(j == c * jr + jc);
            assert(c * row == row * c) by (nonlinear_arith);
        }
    }
}

/// Wraps `Arc::clone`. Trusted: the new handle refers to the same value.
#[verifier::external_body]
pub(crate) fn share<F>(frame: &Arc<F>) -> (other: Arc<F>)
    ensures
        other == *frame,
{
    Arc::clone(frame)
}

/// A rectangular piece of one frame: its pixels, where it lies in the frame,
/// and a handle to what the frame is rendered from.
pub struct Tile<F> {
    pub frame_num: u32,
    pub top: usize,
    pub left: usize,
    pub buf: ImgVec<Rgba>,
    pub frame: Arc<F>,
}

impl<F> Tile<F> {
    /// A tile is well formed when its buffer is packed.
    pub open spec fn wf(&self) -> bool {
        packed(self.buf)
    }

    /// The place of the tile in its frame.
    pub open spec fn rect(&self) -> Rect {
        Rect {
            left: self.left,
            top: self.top,
            width: img_width(self.buf),
            height: img_height(self.buf),
        }
    }

    /// The pixel in column `x` of row `y` of the tile.
    pub open spec fn pixel(&self, x: int, y: int) -> Rgba {
        pixel_at(self.buf, x, y)
    }

    /// Whether no pixel of the tile has been written yet.
    pub open spec fn is_blank(&self) -> bool {
        forall|x: int, y: int|
            0 <= x < img_width(self.buf) && 0 <= y < img_height(self.buf) ==> self.pixel(x, y)
                == blank()
    }

    /// The width of the tile in pixels.
    pub fn width(&self) -> (w: usize)
        ensures
            w == img_width(self.buf),
    {
        img_get_width(&self.buf)
    }

    /// The height of the tile in pixels.
    pub fn height(&self) -> (h: usize)
        ensures
            h == img_height(self.buf),
    {
        img_get_height(&self.buf)
    }

    /// Reads one pixel of the tile.
    pub fn get(&self, x: usize, y: usize) -> (p: Rgba)
        requires
            self.wf(),
            x < img_width(self.buf),
            y < img_height(self.buf),
        ensures
            p == self.pixel(x as int, y as int),
    {
        get_pixel(&self.buf, x, y)
    }

    /// Writes one pixel of the tile and leaves every other pixel, and the
    /// place of the tile, as they were.
    pub fn set(&mut self, x: usize, y: usize, p: Rgba)
        requires
            old(self).wf(),
            x < img_width(old(self).buf),
            y < img_height(old(self).buf),
        ensures
            is_put(old(self).buf, final(self).buf, x as int, y as int, p),
            final(self).left == old(self).left,
            final(self).top == old(self).top,
            final(self).frame_num == old(self).frame_num,
            final(self).frame == old(self).frame,
    {
        put_pixel(&mut self.buf, x, y, p);
    }

    /// Tests at run time whether the tile is well formed.
    pub fn is_wf(&self) -> (ok: bool)
        ensures
            ok == self.wf(),
    {
        is_packed(&self.buf)
    }
}

/// The tiles of one frame that have not been handed out yet.
pub struct Tiles<F> {
    pub index: usize,
    pub params: RenderParams,
    pub frame: Arc<F>,
    pub frame_num: u32,
}

impl RenderParams {
    /// Starts the scan of a frame: no tile has been handed out.
    pub fn tiles<F>(self, frame_num: u32, frame: Arc<F>) -> (tiles: Tiles<F>)
        requires
            self.valid(),
        ensures
            tiles.wf(),
            tiles.index == 0,
            tiles.params == self,
            tiles.frame == frame,
            tiles.frame_num == frame_num,
    {
        Tiles { index: 0, params: self, frame, frame_num }
    }
}

impl<F> Tiles<F> {
    /// The scan is well formed when its parameters are valid and it has not
    /// run past the last tile.
    pub open spec fn wf(&self) -> bool {
        &&& self.params.valid()
        &&& self.index <= self.params.tile_count()
    }

    /// The number of tiles that are still to come.
    pub open spec fn remaining(&self) -> nat {
        (self.params.tile_count() - self.index) as nat
    }

    /// Hands out the next tile of the frame in scan order, blank and clipped
    /// to the frame, or `None` when every tile has been handed out.
    pub fn next(&mut self) -> (tile: Option<Tile<F>>)
        requires
            old(self).wf(),
        ensures
            final(self).wf(),
            final(self).params == old(self).params,
            final(self).frame == old(self).frame,
            final(self).frame_num == old(self).frame_num,
            old(self).remaining() == 0 ==> tile is None && final(self).index == old(self).index,
            old(self).remaining() > 0 ==> tile is Some && final(self).index == old(self).index
                + 1 && ({
                let t = tile->Some_0;
                &&& t.wf()
                &&& t.is_blank()
                &&& t.rect() == old(self).params.tile_rect(old(self).index as int)
                &&& t.frame_num == old(self).frame_num
                &&& t.frame == old(self).frame
            }),
    {
        let total: usize = self.params.tiles_per_frame();
        if self.index >= total {
            return None;
        }
        let k: usize = self.index;
        proof {
            self.params.lemma_tile_in_frame(k as int);
            self.params.lemma_tile_count_bound();
            lemma_ceil_div(self.params.width as nat, self.params.tile_size as nat);
        }
        let ts: usize = self.params.tile_size;
        let cols: usize = self.params.width / ts + if self.params.width % ts == 0 {
            0
        } else {
            1
        };
        let left: usize = (k % cols) * ts;
        let top: usize = (k / cols) * ts;
        let w: usize = if self.params.width - left < ts {
            self.params.width - left
        } else {
            ts
        };
        let h: usize = if self.params.height - top < ts {
            self.params.height - top
        } else {
            ts
        };
        proof {
            let fw = self.params.width as int;
            let fh = self.params.height as int;
            assert(w * h <= fw * fh) by (nonlinear_arith)
                requires
                    0 <= w <= fw,
                    0 <= h <= fh,
            ;
        }
        let buf = filled(w, h, blank_pixel());
        let tile = Tile { frame_num: self.frame_num, top, left, buf, frame: share(&self.frame) };
        self.index = k + 1;
        Some(tile)
    }
}

} // verus!
