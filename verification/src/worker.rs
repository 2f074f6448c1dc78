//! The worker side of the pool.
//!
//! A worker takes one tile at a time, renders every pixel of it, and hands
//! it on. The colour of a pixel is computed by the caller's shading function;
//! what is decided here is which pixels are rendered, where each lies in the
//! frame, what the worker reports to the pool, and how many threads the pool
//! is to keep.

use crate::raster::{img_get_height, img_get_width, img_height, img_width, pixel_at, Rgba};
use crate::tiles::Tile;
use vstd::prelude::*;

verus! {

/// What a worker reports to the pool after one cycle.
#[derive(Clone, Copy, Debug, PartialEq, Eq, Structural)]
pub enum Decision {
    /// A tile was rendered; there may be more.
    Incomplete,
    /// No tile was to be had; the pool decides whether the worker goes on.
    Again,
}

/// How many threads the pool is to keep.
#[derive(Clone, Copy, Debug, PartialEq, Eq, Structural)]
pub enum Scale {
    Active(usize),
    Shutdown,
}

/// The size of the pool: the configured number of threads while the
/// pipeline runs and while tiles still wait in the input queue, and none
/// once the running flag is cleared and the queue is drained.
pub fn scale(running: bool, backlog: bool, threads: usize) -> (s: Scale)
    ensures
        s == if running || backlog {
            Scale::Active(threads)
        } else {
            Scale::Shutdown
        },
{
    if running || backlog {
        Scale::Active(threads)
    } else {
        Scale::Shutdown
    }
}

/// The side, in pixels, of the square in which the frame is laid out: the
/// larger of its two sides.
pub fn dim(width: usize, height: usize) -> (d: usize)
    ensures
        d >= width,
        d >= height,
        d == width || d == height,
{
    if width >= height {
        width
    } else {
        height
    }
}

/// Whether `after` is `before` with the first `rows` rows, and the first
/// `cols` pixels of the row after them, rendered by `shade`. A pixel is
/// rendered from its place in the frame: the tile's origin plus its place in
/// the tile.
pub open spec fn rendered_upto<F, S: Fn(usize, usize) -> Rgba>(
    before: Tile<F>,
    after: Tile<F>,
    shade: &S,
    rows: int,
    cols: int,
) -> bool {
    &&& after.wf()
    &&& after.rect() == before.rect()
    &&& after.frame_num == before.frame_num
    &&& after.frame == before.frame
    &&& forall|x: int, y: int|
        0 <= x < img_width(before.buf) && 0 <= y < img_height(before.buf) ==> if y < rows || (y
            == rows && x < cols) {
            shade.ensures(
                ((before.left + x) as usize, (before.top + y) as usize),
                #[trigger] pixel_at(after.buf, x, y),
            )
        } else {
            pixel_at(after.buf, x, y) == pixel_at(before.buf, x, y)
        }
}

/// Whether `after` is `before` with every pixel rendered by `shade`.
pub open spec fn rendered<F, S: Fn(usize, usize) -> Rgba>(
    before: Tile<F>,
    after: Tile<F>,
    shade: &S,
) -> bool {
    rendered_upto(before, after, shade, img_height(before.buf) as int, 0)
}

/// Whether `shade` can be asked for every pixel of the tile.
pub open spec fn shades<F, S: Fn(usize, usize) -> Rgba>(tile: Tile<F>, shade: &S) -> bool {
    &&& tile.left + img_width(tile.buf) <= usize::MAX
    &&& tile.top + img_height(tile.buf) <= usize::MAX
    &&& forall|x: usize, y: usize|
        tile.left <= x < tile.left + img_width(tile.buf) && tile.top <= y < tile.top + img_height(
            tile.buf,
        ) ==> #[trigger] shade.requires((x, y))
}

/// Renders every pixel of the tile, row by row. No pixel is left as it was.
pub fn render_tile<F, S: Fn(usize, usize) -> Rgba>(tile: &mut Tile<F>, shade: &S)
    requires
        old(tile).wf(),
        shades(*old(tile), shade),
    ensures
        rendered(*old(tile), *final(tile), shade),
{
    let w: usize = img_get_width(&tile.buf);
    let h: usize = img_get_height(&tile.buf);
    let ghost before = *tile;
    let mut y: usize = 0;
    while y < h
        invariant
            y <= h,
            w == img_width(before.buf),
            h == img_height(before.buf),
            before.wf(),
            shades(before, shade),
            rendered_upto(before, *tile, shade, y as int, 0),
        decreases h - y,
    {
        let mut x: usize = 0;
        while x < w
            invariant
                x <= w,
                y < h,
                w == img_width(before.buf),
                h == img_height(before.buf),
                before.wf(),
                shades(before, shade),
                rendered_upto(before, *tile, shade, y as int, x as int),
            decreases w - x,
        {
            let p = shade(tile.left + x, tile.top + y);
            tile.set(x, y, p);
            x += 1;
        }
        y += 1;
    }
}

/// One cycle of a worker. Without a tile it reports `Again` and hands
/// nothing on. With a tile it renders every pixel and hands the tile on for
/// the output queue, reporting `Incomplete`.
pub fn work<F, S: Fn(usize, usize) -> Rgba>(received: Option<Tile<F>>, shade: &S) -> (out: (
    Decision,
    Option<Tile<F>>,
))
    requires
        received matches Some(tile) ==> tile.wf() && shades(tile, shade),
    ensures
        received is None ==> out.0 == Decision::Again && out.1 is None,
        received matches Some(tile) ==> out.0 == Decision::Incomplete && out.1 is Some && rendered(
            tile,
            out.1->Some_0,
            shade,
        ),
{
    match received {
        None => (Decision::Again, None),
        Some(tile) => {
            let mut tile = tile;
            render_tile(&mut tile, shade);
            (Decision::Incomplete, Some(tile))
        },
    }
}

} // verus!
