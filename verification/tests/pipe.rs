use sidequest::pipe::{Action, Driver, Phase, TickResult};
use sidequest::tiles::{RenderParams, Tile};
use std::collections::VecDeque;

fn params(width: usize, height: usize, tile_size: usize) -> RenderParams {
    RenderParams { width, height, tile_size, tile_queue: 2, threads: 3 }
}

struct Run {
    sent: Vec<(u32, usize, usize)>,
    delivered: Vec<(u32, usize, usize)>,
    requested: Vec<u32>,
    closed_at: Option<usize>,
    driver: Driver<u32>,
}

fn key(tile: &Tile<u32>) -> (u32, usize, usize) {
    (tile.frame_num, tile.left, tile.top)
}

/// Drives a pipeline whose pool is two queues and a thread count. The poll
/// asks to exit once `cancel_after` tiles were sent; the consumer fails on
/// its `fail_on`-th tile.
fn run(p: RenderParams, frames: u32, cancel_after: Option<usize>, fail_on: Option<usize>) -> Run {
    let mut driver: Driver<u32> = Driver::new(p);
    let mut input: VecDeque<Tile<u32>> = VecDeque::new();
    let mut output: VecDeque<Tile<u32>> = VecDeque::new();
    let mut threads = p.threads;
    let mut out = Run {
        sent: Vec::new(),
        delivered: Vec::new(),
        requested: Vec::new(),
        closed_at: None,
        driver: Driver::new(p),
    };
    let mut turn = 0usize;
    loop {
        turn += 1;
        assert!(turn < 100_000);
        match driver.action() {
            Action::RequestFrame(n) => {
                out.requested.push(n);
                driver.frame_arrived(if n < frames { Some(n * 10) } else { None });
            }
            Action::Exchange => {
                if turn % 3 == 0 && !output.is_empty() {
                    let tile = output.pop_front().unwrap();
                    if driver.tile_done() {
                        out.delivered.push(key(&tile));
                        if fail_on == Some(out.delivered.len()) {
                            driver.fail();
                        }
                    }
                } else if input.len() < p.tile_queue {
                    let tile = driver.tile_sent();
                    assert_eq!(*tile.frame, tile.frame_num * 10);
                    out.sent.push(key(&tile));
                    input.push_back(tile);
                    if cancel_after == Some(out.sent.len()) {
                        driver.ticked(TickResult::Exit);
                    } else {
                        driver.ticked(TickResult::Run);
                    }
                } else {
                    output.push_back(input.pop_front().unwrap());
                }
            }
            Action::CloseInput => {
                out.closed_at = Some(out.sent.len());
                driver.input_closed();
            }
            Action::Drain => {
                if driver.pool_status(threads, output.is_empty()) {
                    continue;
                }
                driver.ticked(TickResult::Exit);
                if let Some(tile) = output.pop_front() {
                    assert!(driver.in_flight() > 0);
                    if driver.tile_done() {
                        out.delivered.push(key(&tile));
                    }
                } else if let Some(tile) = input.pop_front() {
                    output.push_back(tile);
                } else {
                    threads = 0;
                }
            }
            Action::Finish => break,
        }
    }
    assert!(input.is_empty() && output.is_empty());
    out.driver = driver;
    out
}

#[test]
fn a_new_driver_asks_for_the_first_frame() {
    let driver: Driver<u32> = Driver::new(params(100, 100, 32));
    assert_eq!(driver.action(), Action::RequestFrame(0));
    assert_eq!(driver.phase, Phase::Running);
    assert_eq!(driver.in_flight(), 0);
    assert!(!driver.succeeded());
}

#[test]
fn every_tile_of_every_frame_is_sent_and_delivered() {
    let done = run(params(100, 100, 32), 3, None, None);
    assert_eq!(done.requested, vec![0, 1, 2, 3]);
    assert_eq!(done.sent.len(), 48);
    assert_eq!(done.closed_at, Some(48));
    let mut sent = done.sent.clone();
    let mut delivered = done.delivered.clone();
    sent.sort();
    delivered.sort();
    assert_eq!(sent, delivered);
    sent.dedup();
    assert_eq!(sent.len(), 48);
    assert_eq!(done.driver.phase, Phase::Stopped);
    assert!(done.driver.succeeded());
    assert!(!done.driver.cancelled);
    assert_eq!(done.driver.dispatched, 48);
    assert_eq!(done.driver.delivered, 48);
    assert_eq!(done.driver.frames, 3);
    assert_eq!(done.driver.in_flight(), 0);
}

#[test]
fn tiles_are_sent_in_scan_order_frame_by_frame() {
    let done = run(params(5, 4, 3), 2, None, None);
    assert_eq!(
        done.sent,
        vec![
            (0, 0, 0),
            (0, 3, 0),
            (0, 0, 3),
            (0, 3, 3),
            (1, 0, 0),
            (1, 3, 0),
            (1, 0, 3),
            (1, 3, 3)
        ]
    );
}

#[test]
fn cancelling_after_the_first_tile_still_delivers_it() {
    let done = run(params(100, 100, 32), 3, Some(1), None);
    assert_eq!(done.requested, vec![0]);
    assert_eq!(done.sent, vec![(0, 0, 0)]);
    assert_eq!(done.delivered, vec![(0, 0, 0)]);
    assert_eq!(done.driver.phase, Phase::Stopped);
    assert!(done.driver.cancelled);
    assert!(done.driver.succeeded());
    assert_eq!(done.driver.in_flight(), 0);
}

#[test]
fn cancelling_in_mid_frame_delivers_what_was_sent() {
    for n in 1..20 {
        let done = run(params(100, 100, 32), 3, Some(n), None);
        assert_eq!(done.sent.len(), n);
        let mut sent = done.sent.clone();
        let mut delivered = done.delivered.clone();
        sent.sort();
        delivered.sort();
        assert_eq!(sent, delivered);
        assert_eq!(done.closed_at, Some(n));
    }
}

#[test]
fn a_failing_consumer_stops_delivery_but_not_the_teardown() {
    let done = run(params(100, 100, 32), 3, None, Some(2));
    assert_eq!(done.delivered.len(), 2);
    assert_eq!(done.driver.phase, Phase::Stopped);
    assert!(done.driver.failed);
    assert!(!done.driver.succeeded());
    assert!(!done.driver.input_open);
    assert_eq!(done.driver.delivered, 2);
    assert_eq!(done.driver.dropped, done.driver.dispatched - 2);
    assert_eq!(done.driver.in_flight(), 0);
}

#[test]
fn an_animation_without_frames_only_winds_down() {
    let done = run(params(100, 100, 32), 0, None, None);
    assert_eq!(done.requested, vec![0]);
    assert!(done.sent.is_empty());
    assert!(done.driver.succeeded());
}

#[test]
fn frames_without_pixels_send_nothing() {
    let done = run(params(0, 100, 32), 2, None, None);
    assert_eq!(done.requested, vec![0, 1, 2]);
    assert!(done.sent.is_empty());
    assert_eq!(done.driver.frames, 2);
    assert!(done.driver.succeeded());
}

#[test]
fn the_driver_walks_through_its_actions() {
    let mut driver: Driver<u32> = Driver::new(params(4, 2, 2));
    driver.frame_arrived(Some(5));
    assert_eq!(driver.action(), Action::Exchange);
    let first = driver.tile_sent();
    assert_eq!((first.left, first.top, first.width(), first.height()), (0, 0, 2, 2));
    assert_eq!(driver.action(), Action::Exchange);
    assert!(driver.tile_done());
    let second = driver.tile_sent();
    assert_eq!((second.left, second.top), (2, 0));
    assert_eq!(driver.action(), Action::RequestFrame(1));
    assert_eq!(driver.in_flight(), 1);
    driver.frame_arrived(None);
    assert_eq!(driver.phase, Phase::Draining);
    assert_eq!(driver.action(), Action::CloseInput);
    driver.input_closed();
    assert_eq!(driver.action(), Action::Drain);
    assert!(!driver.pool_status(3, true));
    assert!(!driver.pool_status(0, false));
    assert_eq!(driver.action(), Action::Drain);
    assert!(driver.tile_done());
    assert!(driver.pool_status(0, true));
    assert_eq!(driver.action(), Action::Finish);
    assert!(driver.succeeded());
}

#[test]
fn a_tick_that_says_run_changes_nothing() {
    let mut driver: Driver<u32> = Driver::new(params(4, 2, 2));
    driver.frame_arrived(Some(5));
    driver.ticked(TickResult::Run);
    assert_eq!(driver.phase, Phase::Running);
    assert_eq!(driver.action(), Action::Exchange);
    driver.ticked(TickResult::Exit);
    assert_eq!(driver.phase, Phase::Draining);
    assert!(driver.cancelled);
    assert!(driver.pending.is_none());
    assert_eq!(driver.action(), Action::CloseInput);
}

#[test]
fn a_failing_frame_source_starts_the_drain() {
    let mut driver: Driver<u32> = Driver::new(params(4, 2, 2));
    driver.fail();
    assert_eq!(driver.phase, Phase::Draining);
    assert!(driver.failed);
    assert_eq!(driver.action(), Action::CloseInput);
    driver.input_closed();
    assert!(driver.pool_status(0, true));
    assert!(!driver.succeeded());
}
