//! Putting finished tiles back together into one frame.
//!
//! Tiles come back from the workers in any order. Each is copied into the
//! full frame at the place that its origin names, and a countdown tells when
//! the last tile of the frame has arrived.

use crate::raster::{blank, blank_pixel, filled, get_pixel, img_get_height, img_get_width};
use crate::raster::{is_packed, put_pixel};
use crate::raster::{img_height, img_width, packed, pixel_at, Rgba};
use crate::tiles::{Rect, RenderParams, Tile};
use imgref::ImgVec;
use vstd::prelude::*;

verus! {

/// Whether `after` is `before` with the first `rows` rows of `src`, and the
/// first `cols` pixels of the row after them, copied to the place whose top
/// left corner is in column `left` of row `top`. Every other pixel is as it
/// was.
pub open spec fn pasted_upto(
    before: ImgVec<Rgba>,
    after: ImgVec<Rgba>,
    src: ImgVec<Rgba>,
    left: int,
    top: int,
    rows: int,
    cols: int,
) -> bool {
    &&& packed(after)
    &&& img_width(after) == img_width(before)
    &&& img_height(after) == img_height(before)
    &&& forall|x: int, y: int|
        0 <= x < img_width(before) && 0 <= y < img_height(before) ==> #[trigger] pixel_at(
            after,
            x,
            y,
        ) == if left <= x < left + img_width(src) && top <= y < top + img_height(src) && (y - top
            < rows || (y - top == rows && x - left < cols)) {
            pixel_at(src, x - left, y - top)
        } else {
            pixel_at(before, x, y)
        }
}

/// Whether `after` is `before` with the whole of `src` copied to the place
/// whose top left corner is in column `left` of row `top`.
pub open spec fn pasted(
    before: ImgVec<Rgba>,
    after: ImgVec<Rgba>,
    src: ImgVec<Rgba>,
    left: int,
    top: int,
) -> bool {
    pasted_upto(before, after, src, left, top, img_height(src) as int, 0)
}

/// Whether `part` holds the pixels of the rectangle `rect` of `whole`.
pub open spec fn is_region(whole: ImgVec<Rgba>, rect: Rect, part: ImgVec<Rgba>) -> bool {
    &&& packed(part)
    &&& img_width(part) == rect.width
    &&& img_height(part) == rect.height
    &&& forall|x: int, y: int|
        0 <= x < rect.width && 0 <= y < rect.height ==> #[trigger] pixel_at(part, x, y)
            == pixel_at(whole, rect.left + x, rect.top + y)
}

/// Copies the whole of `src` into `dst` at the given origin.
pub fn paste(dst: &mut ImgVec<Rgba>, src: &ImgVec<Rgba>, left: usize, top: usize)
    requires
        packed(*old(dst)),
        packed(*src),
        left + img_width(*src) <= img_width(*old(dst)),
        top + img_height(*src) <= img_height(*old(dst)),
    ensures
        pasted(*old(dst), *final(dst), *src, left as int, top as int),
{
    let w: usize = img_get_width(src);
    let h: usize = img_get_height(src);
    let ghost before = *dst;
    let mut y: usize = 0;
    while y < h
        invariant
            y <= h,
            w == img_width(*src),
            h == img_height(*src),
            packed(*src),
            packed(before),
            left + w <= img_width(before),
            top + h <= img_height(before),
            pasted_upto(before, *dst, *src, left as int, top as int, y as int, 0),
        decreases h - y,
    {
        let mut x: usize = 0;
        while x < w
            invariant
                x <= w,
                y < h,
                w == img_width(*src),
                h == img_height(*src),
                packed(*src),
                packed(before),
                left + w <= img_width(before),
                top + h <= img_height(before),
                pasted_upto(before, *dst, *src, left as int, top as int, y as int, x as int),
            decreases w - x,
        {
            let p = get_pixel(src, x, y);
            put_pixel(dst, left + x, top + y, p);
            x += 1;
        }
        y += 1;
    }
}

/// Copies the rectangle of `src` with the given origin and size into a new
/// image.
pub fn copy_region(src: &ImgVec<Rgba>, left: usize, top: usize, width: usize, height: usize) -> (part:
    ImgVec<Rgba>)
    requires
        packed(*src),
        width > 0,
        left + width <= img_width(*src),
        top + height <= img_height(*src),
    ensures
        is_region(*src, Rect { left, top, width, height }, part),
{
    let fw: usize = img_get_width(src);
    let fh: usize = img_get_height(src);
    proof {
        assert(width * height <= fw * fh) by (nonlinear_arith)
            requires
                0 <= width <= fw,
                0 <= height <= fh,
        ;
    }
    let mut part = filled(width, height, blank_pixel());
    let mut y: usize = 0;
    while y < height
        invariant
            y <= height,
            packed(*src),
            left + width <= img_width(*src),
            top + height <= img_height(*src),
            packed(part),
            img_width(part) == width,
            img_height(part) == height,
            forall|i: int, j: int|
                0 <= i < width && 0 <= j < y ==> #[trigger] pixel_at(part, i, j) == pixel_at(
                    *src,
                    left + i,
                    top + j,
                ),
        decreases height - y,
    {
        let mut x: usize = 0;
        while x < width
            invariant
                x <= width,
                y < height,
                packed(*src),
                left + width <= img_width(*src),
                top + height <= img_height(*src),
                packed(part),
                img_width(part) == width,
                img_height(part) == height,
                forall|i: int, j: int|
                    0 <= i < width && 0 <= j < height && (j < y || (j == y && i < x))
                        ==> #[trigger] pixel_at(part, i, j) == pixel_at(*src, left + i, top + j),
            decreases width - x,
        {
            let p = get_pixel(src, left + x, top + y);
            put_pixel(&mut part, x, y, p);
            x += 1;
        }
        y += 1;
    }
    part
}

/// A whole frame that is being put together from its tiles.
#[derive(Clone, Debug)]
pub struct FullFrame {
    pub buf: ImgVec<Rgba>,
    pub todo_tiles: usize,
}

impl RenderParams {
    /// A frame of the size that the parameters give, every pixel blank, that
    /// waits for all the tiles of one frame.
    pub fn uninitialized_frame(&self) -> (frame: FullFrame)
        requires
            self.valid(),
            self.width > 0,
        ensures
            frame.wf(),
            img_width(frame.buf) == self.width,
            img_height(frame.buf) == self.height,
            frame.todo() == self.tile_count(),
            forall|x: int, y: int|
                0 <= x < self.width && 0 <= y < self.height ==> pixel_at(frame.buf, x, y)
                    == blank(),
    {
        FullFrame {
            buf: filled(self.width, self.height, blank_pixel()),
            todo_tiles: self.tiles_per_frame(),
        }
    }
}

impl FullFrame {
    /// A frame is well formed when its buffer is packed.
    pub open spec fn wf(&self) -> bool {
        packed(self.buf)
    }

    /// The number of tiles that the frame still waits for.
    pub open spec fn todo(&self) -> nat {
        self.todo_tiles as nat
    }

    /// Whether the frame can take the tile: it still waits for one, and the
    /// tile lies inside it.
    pub open spec fn fits<F>(&self, tile: &Tile<F>) -> bool {
        &&& self.wf()
        &&& tile.wf()
        &&& self.todo() > 0
        &&& tile.left + img_width(tile.buf) <= img_width(self.buf)
        &&& tile.top + img_height(tile.buf) <= img_height(self.buf)
    }

    /// Tests at run time whether the frame can take the tile.
    pub fn accepts<F>(&self, tile: &Tile<F>) -> (ok: bool)
        ensures
            ok == self.fits(tile),
    {
        if !is_packed(&self.buf) || !is_packed(&tile.buf) || self.todo_tiles == 0 {
            return false;
        }
        let fw: usize = img_get_width(&self.buf);
        let fh: usize = img_get_height(&self.buf);
        let tw: usize = img_get_width(&tile.buf);
        let th: usize = img_get_height(&tile.buf);
        tw <= fw && tile.left <= fw - tw && th <= fh && tile.top <= fh - th
    }

    /// Takes a finished tile: copies its pixels to the place that its origin
    /// names, leaves every other pixel as it was, and counts the tile off.
    pub fn tile_ready<F>(&mut self, tile: &Tile<F>)
        requires
            old(self).fits(tile),
        ensures
            final(self).wf(),
            final(self).todo() == old(self).todo() - 1,
            pasted(old(self).buf, final(self).buf, tile.buf, tile.left as int, tile.top as int),
    {
        self.todo_tiles -= 1;
        paste(&mut self.buf, &tile.buf, tile.left, tile.top);
    }

    /// Whether every tile of the frame has arrived.
    pub fn is_done(&self) -> (done: bool)
        ensures
            done == (self.todo() == 0),
    {
        self.todo_tiles == 0
    }

    /// The number of tiles that the frame still waits for.
    pub fn tiles_left(&self) -> (n: usize)
        ensures
            n == self.todo(),
    {
        self.todo_tiles
    }

    /// Reads back the pixels at the place of a tile.
    pub fn region(&self, rect: Rect) -> (part: ImgVec<Rgba>)
        requires
            self.wf(),
            rect.width > 0,
            rect.left + rect.width <= img_width(self.buf),
            rect.top + rect.height <= img_height(self.buf),
        ensures
            is_region(self.buf, rect, part),
    {
        copy_region(&self.buf, rect.left, rect.top, rect.width, rect.height)
    }
}

/// Copying a tile into a frame and reading the same place back gives the
/// tile's pixels again.
pub proof fn lemma_paste_then_region<F>(
    before: ImgVec<Rgba>,
    after: ImgVec<Rgba>,
    tile: Tile<F>,
    part: ImgVec<Rgba>,
)
    requires
        packed(before),
        tile.wf(),
        tile.left + img_width(tile.buf) <= img_width(before),
        tile.top + img_height(tile.buf) <= img_height(before),
        pasted(before, after, tile.buf, tile.left as int, tile.top as int),
        is_region(after, tile.rect(), part),
    ensures
        img_width(part) == img_width(tile.buf),
        img_height(part) == img_height(tile.buf),
        forall|x: int, y: int|
            0 <= x < img_width(tile.buf) && 0 <= y < img_height(tile.buf) ==> pixel_at(part, x, y)
                == tile.pixel(x, y),
{
    assert forall|x: int, y: int|
        0 <= x < img_width(tile.buf) && 0 <= y < img_height(tile.buf) implies pixel_at(part, x, y)
        == tile.pixel(x, y) by {
        assert(pixel_at(part, x, y) == pixel_at(after, tile.left + x, tile.top + y));
        assert(pixel_at(after, tile.left + x, tile.top + y) == pixel_at(tile.buf, x, y));
    }
}

/// Whether `frames` is the history of a frame into which `tiles` were taken
/// one after the other: each is a tile of the frame that `params` describes,
/// `order` says which, and no tile came twice.
pub open spec fn assembles<F>(
    params: RenderParams,
    frames: Seq<ImgVec<Rgba>>,
    tiles: Seq<Tile<F>>,
    order: Seq<int>,
) -> bool {
    &&& params.valid()
    &&& frames.len() == tiles.len() + 1
    &&& order.len() == tiles.len()
    &&& packed(frames[0])
    &&& img_width(frames[0]) == params.width
    &&& img_height(frames[0]) == params.height
    &&& forall|i: int|
        0 <= i < tiles.len() ==> {
            &&& (#[trigger] tiles[i]).wf()
            &&& 0 <= order[i] < params.tile_count()
            &&& tiles[i].rect() == params.tile_rect(order[i])
            &&& pasted(
                frames[i],
                frames[i + 1],
                tiles[i].buf,
                tiles[i].left as int,
                tiles[i].top as int,
            )
        }
    &&& forall|i: int, j: int|
        0 <= i < j < tiles.len() ==> #[trigger] order[i] != #[trigger] order[j]
}

/// Tiles may arrive in any order: a tile that the frame has taken is not
/// disturbed by the tiles that come after it. After `n` tiles the frame
/// holds, at the place of each of them, exactly that tile's pixels.
pub proof fn lemma_assembly_keeps_tiles<F>(
    params: RenderParams,
    frames: Seq<ImgVec<Rgba>>,
    tiles: Seq<Tile<F>>,
    order: Seq<int>,
    n: int,
)
    requires
        assembles(params, frames, tiles, order),
        0 <= n <= tiles.len(),
    ensures
        packed(frames[n]),
        img_width(frames[n]) == params.width,
        img_height(frames[n]) == params.height,
        forall|i: int, x: int, y: int|
            0 <= i < n && 0 <= x < img_width(tiles[i].buf) && 0 <= y < img_height(tiles[i].buf)
                ==> pixel_at(frames[n], tiles[i].left + x, tiles[i].top + y) == #[trigger] pixel_at(
                tiles[i].buf,
                x,
                y,
            ),
    decreases n,
{
    if n > 0 {
        let m = n - 1;
        lemma_assembly_keeps_tiles(params, frames, tiles, order, m);
        let last = tiles[m];
        assert(last.wf());
        params.lemma_tile_in_frame(order[m]);
        assert forall|i: int, x: int, y: int|
            0 <= i < n && 0 <= x < img_width(tiles[i].buf) && 0 <= y < img_height(
                tiles[i].buf,
            ) implies pixel_at(frames[n], tiles[i].left + x, tiles[i].top + y) == #[trigger] pixel_at(
            tiles[i].buf,
            x,
            y,
        ) by {
            let gx = tiles[i].left + x;
            let gy = tiles[i].top + y;
            assert(tiles[i].wf());
            params.lemma_tile_in_frame(order[i]);
            if i < m {
                if last.rect().contains(gx, gy) {
                    params.lemma_pixel_in_one_tile(gx, gy);
                    assert(params.tile_rect(order[i]).contains(gx, gy));
                    assert(params.tile_rect(order[m]).contains(gx, gy));
                    assert(order[i] != order[m]);
                }
                assert(pixel_at(frames[n], gx, gy) == pixel_at(frames[m], gx, gy));
            } else {
                assert(pixel_at(frames[n], gx, gy) == pixel_at(last.buf, gx - last.left, gy - last.top));
            }
        }
    }
}

} // verus!
