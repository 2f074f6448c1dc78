use sidequest::raster::Rgba;
use sidequest::tiles::{RenderParams, Tile};
use sidequest::worker::{dim, render_tile, scale, work, Decision, Scale};
use std::cell::Cell;
use std::sync::Arc;

fn tile_at(index: usize) -> Tile<()> {
    let p = RenderParams { width: 10, height: 7, tile_size: 4, tile_queue: 4, threads: 2 };
    let mut scan = p.tiles(0, Arc::new(()));
    let mut tile = scan.next().unwrap();
    for _ in 0..index {
        tile = scan.next().unwrap();
    }
    tile
}

fn shade(x: usize, y: usize) -> Rgba {
    Rgba { r: x as u8, g: y as u8, b: (x + y) as u8, a: 255 }
}

#[test]
fn render_tile_shades_every_pixel_from_its_place_in_the_frame() {
    let mut tile = tile_at(5);
    assert_eq!((tile.left, tile.top, tile.width(), tile.height()), (8, 4, 2, 3));
    render_tile(&mut tile, &shade);
    for y in 0..3 {
        for x in 0..2 {
            assert_eq!(tile.get(x, y), shade(8 + x, 4 + y));
        }
    }
    assert_eq!((tile.left, tile.top, tile.width(), tile.height()), (8, 4, 2, 3));
}

#[test]
fn render_tile_asks_once_for_each_pixel() {
    let mut tile = tile_at(0);
    let calls = Cell::new(0usize);
    let counting = |x: usize, y: usize| {
        calls.set(calls.get() + 1);
        shade(x, y)
    };
    render_tile(&mut tile, &counting);
    assert_eq!(calls.get(), 16);
}

#[test]
fn work_without_a_tile_reports_again() {
    let (decision, out) = work::<(), _>(None, &shade);
    assert_eq!(decision, Decision::Again);
    assert!(out.is_none());
}

#[test]
fn work_with_a_tile_renders_it_and_hands_it_on() {
    let (decision, out) = work(Some(tile_at(1)), &shade);
    assert_eq!(decision, Decision::Incomplete);
    let tile = out.unwrap();
    assert_eq!((tile.left, tile.top), (4, 0));
    for y in 0..4 {
        for x in 0..4 {
            assert_eq!(tile.get(x, y), shade(4 + x, y));
        }
    }
}

#[test]
fn pool_keeps_its_threads_until_flag_is_cleared_and_queue_drained() {
    assert_eq!(scale(true, false, 8), Scale::Active(8));
    assert_eq!(scale(true, true, 8), Scale::Active(8));
    assert_eq!(scale(false, true, 8), Scale::Active(8));
    assert_eq!(scale(false, false, 8), Scale::Shutdown);
    assert_eq!(scale(true, false, 0), Scale::Active(0));
}

#[test]
fn dim_is_the_larger_side() {
    assert_eq!(dim(512, 256), 512);
    assert_eq!(dim(256, 512), 512);
    assert_eq!(dim(7, 7), 7);
    assert_eq!(dim(0, 0), 0);
}
