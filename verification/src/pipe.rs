//! The pipeline driver.
//!
//! The driver decides; its caller acts. The caller owns the channels, the
//! worker pool and the three callbacks (frame source, tile consumer,
//! cancellation poll). It asks the driver what to do next ([`Driver::action`]),
//! does it, and reports what happened through one of the transition methods.
//!
//! The driver is `Running` while it hands tiles to the pool, `Draining` once
//! it will hand out no more and waits for the tiles in flight, and `Stopped`
//! when the pool has no live thread and no finished tile is left to collect.

pub use crate::frame::FullFrame;
pub use crate::tiles::{RenderParams, Tile};
use crate::tiles::Tiles;
use std::sync::Arc;
use vstd::prelude::*;

verus! {

/// What the cancellation poll answers.
#[derive(Clone, Copy, Debug, PartialEq, Eq, Structural)]
pub enum TickResult {
    Run,
    Exit,
}

/// The three states of the driver.
#[derive(Clone, Copy, Debug, PartialEq, Eq, Structural)]
pub enum Phase {
    Running,
    Draining,
    Stopped,
}

/// What the driver asks its caller to do next.
#[derive(Clone, Copy, Debug, PartialEq, Eq, Structural)]
pub enum Action {
    /// Ask the frame source for the frame with this index and report the
    /// answer with [`Driver::frame_arrived`].
    RequestFrame(u32),
    /// Wait for whichever comes first: a finished tile
    /// ([`Driver::tile_done`]), a tick ([`Driver::ticked`]), or room in the
    /// input queue ([`Driver::tile_sent`]).
    Exchange,
    /// Close the input queue, clear the pool's running flag, and report with
    /// [`Driver::input_closed`].
    CloseInput,
    /// Report the state of the pool with [`Driver::pool_status`]; if the
    /// driver has not stopped, wait for a finished tile or a tick.
    Drain,
    /// Return to the caller: the driver has stopped.
    Finish,
}

/// The largest number of frames that a run can have: one for each index.
pub open spec fn frame_limit() -> nat {
    0x1_0000_0000
}

/// The driver as the contracts see it.
pub struct DriverView {
    pub phase: Phase,
    /// The number of tiles that each frame is cut into.
    pub per_frame: nat,
    /// The number of frames that the frame source has produced.
    pub frames: nat,
    /// The tiles of the frame in progress that have not been sent yet.
    pub unsent: nat,
    /// The tiles that were sent to the pool.
    pub dispatched: nat,
    /// The finished tiles that were handed to the consumer.
    pub delivered: nat,
    /// The finished tiles that were set aside after a failure.
    pub dropped: nat,
    pub input_open: bool,
    pub cancelled: bool,
    pub failed: bool,
}

impl DriverView {
    /// The tiles that were sent and have not come back.
    pub open spec fn in_flight(self) -> int {
        self.dispatched - self.delivered - self.dropped
    }

    /// What holds of every state that the driver can reach.
    pub open spec fn inv(self) -> bool {
        &&& self.frames <= frame_limit()
        &&& self.delivered + self.dropped <= self.dispatched
        &&& self.dispatched + self.unsent <= self.frames * self.per_frame
        &&& self.dropped > 0 ==> self.failed
        &&& !self.cancelled && !self.failed ==> self.dispatched + self.unsent == self.frames
            * self.per_frame
        &&& self.phase == Phase::Running ==> {
            &&& self.input_open
            &&& !self.cancelled
            &&& !self.failed
            &&& self.unsent == 0 ==> self.frames < frame_limit()
        }
        &&& self.phase != Phase::Running ==> self.unsent == 0
        &&& self.phase == Phase::Stopped ==> !self.input_open
    }

    /// The state in which a run starts.
    pub open spec fn initial(per_frame: nat) -> DriverView {
        DriverView {
            phase: Phase::Running,
            per_frame,
            frames: 0,
            unsent: 0,
            dispatched: 0,
            delivered: 0,
            dropped: 0,
            input_open: true,
            cancelled: false,
            failed: false,
        }
    }

    /// What the driver asks for in this state.
    pub open spec fn action(self) -> Action {
        match self.phase {
            Phase::Stopped => Action::Finish,
            Phase::Draining => if self.input_open {
                Action::CloseInput
            } else {
                Action::Drain
            },
            Phase::Running => if self.unsent > 0 {
                Action::Exchange
            } else {
                Action::RequestFrame(self.frames as u32)
            },
        }
    }

    /// Leaves `Running` when the last tile of the last possible frame is gone.
    pub open spec fn settle(self) -> DriverView {
        if self.phase == Phase::Running && self.unsent == 0 && self.frames >= frame_limit() {
            DriverView { phase: Phase::Draining, ..self }
        } else {
            self
        }
    }

    /// The frame source answered: with a frame, whose tiles are now to be
    /// sent, or with the end of the animation.
    pub open spec fn frame_arrived(self, has_frame: bool) -> DriverView {
        if has_frame {
            DriverView { frames: self.frames + 1, unsent: self.per_frame, ..self }.settle()
        } else {
            DriverView { phase: Phase::Draining, ..self }
        }
    }

    /// The pending tile went into the input queue.
    pub open spec fn tile_sent(self) -> DriverView {
        DriverView {
            dispatched: self.dispatched + 1,
            unsent: (self.unsent - 1) as nat,
            ..self
        }.settle()
    }

    /// A finished tile came out of the output queue.
    pub open spec fn tile_done(self) -> DriverView {
        if self.failed {
            DriverView { dropped: self.dropped + 1, ..self }
        } else {
            DriverView { delivered: self.delivered + 1, ..self }
        }
    }

    /// The cancellation poll answered.
    pub open spec fn ticked(self, answer: TickResult) -> DriverView {
        if answer == TickResult::Exit && self.phase == Phase::Running {
            DriverView { phase: Phase::Draining, unsent: 0, cancelled: true, ..self }
        } else {
            self
        }
    }

    /// The frame source or the tile consumer failed.
    pub open spec fn fail(self) -> DriverView {
        match self.phase {
            Phase::Running => DriverView {
                phase: Phase::Draining,
                unsent: 0,
                failed: true,
                ..self
            },
            Phase::Draining => DriverView { failed: true, ..self },
            Phase::Stopped => self,
        }
    }

    /// The input queue was closed and the pool told to wind down.
    pub open spec fn input_closed(self) -> DriverView {
        DriverView { input_open: false, ..self }
    }

    /// The pool reported how many threads live and whether a finished tile
    /// waits in the output queue.
    pub open spec fn pool_status(self, threads: nat, output_empty: bool) -> DriverView {
        if threads == 0 && output_empty {
            DriverView { phase: Phase::Stopped, ..self }
        } else {
            self
        }
    }
}

/// The driver of one run of the pipeline.
pub struct Driver<F> {
    pub params: RenderParams,
    pub phase: Phase,
    /// The number of frames that the frame source has produced.
    pub frames: u64,
    /// The scan of the frame in progress.
    pub scan: Option<Tiles<F>>,
    /// The tile that waits for room in the input queue.
    pub pending: Option<Tile<F>>,
    pub dispatched: u128,
    pub delivered: u128,
    pub dropped: u128,
    pub input_open: bool,
    pub cancelled: bool,
    pub failed: bool,
}

impl<F> Driver<F> {
    /// The tiles of the frame in progress that have not been sent yet: the
    /// pending one and those that the scan has not handed out.
    pub open spec fn unsent(&self) -> nat {
        match (self.pending, self.scan) {
            (Some(_), Some(scan)) => 1 + scan.remaining(),
            _ => 0,
        }
    }

    /// The driver as the contracts see it: its phase and its counters.
    pub open spec fn view(&self) -> DriverView {
        DriverView {
            phase: self.phase,
            per_frame: self.params.tile_count(),
            frames: self.frames as nat,
            unsent: self.unsent(),
            dispatched: self.dispatched as nat,
            delivered: self.delivered as nat,
            dropped: self.dropped as nat,
            input_open: self.input_open,
            cancelled: self.cancelled,
            failed: self.failed,
        }
    }

    /// The driver is well formed when the invariant holds of its view and the
    /// pending tile is the one that the scan handed out last.
    pub open spec fn wf(&self) -> bool {
        &&& self.params.valid()
        &&& self@.inv()
        &&& self.pending is Some ==> {
            &&& self.scan is Some
            &&& self.phase == Phase::Running
        }
        &&& self.scan matches Some(scan) ==> {
            &&& scan.wf()
            &&& scan.params == self.params
            &&& scan.frame_num + 1 == self.frames
            &&& self.pending is None ==> scan.remaining() == 0
            &&& self.pending matches Some(tile) ==> {
                &&& scan.index >= 1
                &&& tile.wf()
                &&& tile.is_blank()
                &&& tile.rect() == self.params.tile_rect(scan.index - 1)
                &&& tile.frame_num == scan.frame_num
                &&& tile.frame == scan.frame
            }
        }
    }

    /// The number, within its frame, of the tile that waits to be sent.
    pub open spec fn pending_index(&self) -> int {
        self.params.tile_count() - self.unsent()
    }

    /// A driver at the start of a run: no frame asked for, nothing sent.
    pub fn new(params: RenderParams) -> (driver: Driver<F>)
        requires
            params.valid(),
        ensures
            driver.wf(),
            driver.params == params,
            driver@ == DriverView::initial(params.tile_count()),
    {
        Driver {
            params,
            phase: Phase::Running,
            frames: 0,
            scan: None,
            pending: None,
            dispatched: 0,
            delivered: 0,
            dropped: 0,
            input_open: true,
            cancelled: false,
            failed: false,
        }
    }

    /// What the caller is to do next.
    pub fn action(&self) -> (action: Action)
        requires
            self.wf(),
        ensures
            action == self@.action(),
    {
        match self.phase {
            Phase::Stopped => Action::Finish,
            Phase::Draining => if self.input_open {
                Action::CloseInput
            } else {
                Action::Drain
            },
            Phase::Running => if self.pending.is_some() {
                Action::Exchange
            } else {
                Action::RequestFrame(self.frames as u32)
            },
        }
    }
}

impl<F> Driver<F> {
    /// The frame source answered. A frame is cut into tiles and its first
    /// tile waits to be sent; the end of the animation starts the drain.
    pub fn frame_arrived(&mut self, frame: Option<F>)
        requires
            old(self).wf(),
            old(self)@.action() is RequestFrame,
        ensures
            final(self).wf(),
            final(self).params == old(self).params,
            final(self)@ == old(self)@.frame_arrived(frame is Some),
            frame is Some && final(self).pending is Some ==> final(self).pending->Some_0.frame
                == frame->Some_0,
    {
        match frame {
            None => {
                self.phase = Phase::Draining;
                self.scan = None;
            },
            Some(data) => {
                let number: u32 = self.frames as u32;
                let mut scan = self.params.tiles(number, Arc::new(data));
                let first = scan.next();
                proof {
                    let f = self.frames as int;
                    let t = self.params.tile_count() as int;
                    assert((f + 1) * t == f * t + t) by (nonlinear_arith);
                }
                self.frames = self.frames + 1;
                self.pending = first;
                self.scan = Some(scan);
                if self.pending.is_none() && self.frames >= 0x1_0000_0000 {
                    self.phase = Phase::Draining;
                }
            },
        }
    }

    /// The input queue has room: hands out the pending tile, to be sent, and
    /// lets the next tile of the frame wait in its place. Tiles leave in scan
    /// order, blank, each at its place in the frame.
    pub fn tile_sent(&mut self) -> (tile: Tile<F>)
        requires
            old(self).wf(),
            old(self)@.action() == Action::Exchange,
        ensures
            final(self).wf(),
            final(self).params == old(self).params,
            final(self)@ == old(self)@.tile_sent(),
            tile.wf(),
            tile.is_blank(),
            tile.rect() == old(self).params.tile_rect(old(self).pending_index()),
            tile.frame_num + 1 == old(self).frames,
            Some(tile) == old(self).pending,
    {
        proof {
            self.params.lemma_tile_count_bound();
            let f = self.frames as int;
            let t = self.params.tile_count() as int;
            assert(f * t <= 0x1_0000_0000 * 0x1_0000_0000_0000_0000) by (nonlinear_arith)
                requires
                    0 <= f <= 0x1_0000_0000,
                    0 <= t <= 0xffff_ffff_ffff_ffff,
            ;
        }
        let tile = self.pending.take().unwrap();
        let mut scan = self.scan.take().unwrap();
        let next = scan.next();
        self.pending = next;
        self.scan = Some(scan);
        self.dispatched = self.dispatched + 1;
        if self.pending.is_none() && self.frames >= 0x1_0000_0000 {
            self.phase = Phase::Draining;
        }
        tile
    }

    /// A finished tile came out of the output queue. Says whether it is to be
    /// handed to the consumer: always, unless a callback has failed.
    pub fn tile_done(&mut self) -> (deliver: bool)
        requires
            old(self).wf(),
            old(self).phase != Phase::Stopped,
            old(self)@.in_flight() > 0,
        ensures
            final(self).wf(),
            final(self).params == old(self).params,
            final(self)@ == old(self)@.tile_done(),
            deliver == !old(self).failed,
    {
        if self.failed {
            self.dropped = self.dropped + 1;
            false
        } else {
            self.delivered = self.delivered + 1;
            true
        }
    }

    /// The cancellation poll answered. A request to exit while running gives
    /// up the tiles that were not sent yet and starts the drain; the tiles in
    /// flight are still collected.
    pub fn ticked(&mut self, answer: TickResult)
        requires
            old(self).wf(),
        ensures
            final(self).wf(),
            final(self).params == old(self).params,
            final(self)@ == old(self)@.ticked(answer),
    {
        if answer == TickResult::Exit && self.phase == Phase::Running {
            self.phase = Phase::Draining;
            self.cancelled = true;
            self.pending = None;
            self.scan = None;
        }
    }

    /// The frame source or the tile consumer failed. The driver sends no more
    /// tiles and hands no more to the consumer, but still winds the pool down.
    pub fn fail(&mut self)
        requires
            old(self).wf(),
        ensures
            final(self).wf(),
            final(self).params == old(self).params,
            final(self)@ == old(self)@.fail(),
    {
        match self.phase {
            Phase::Running => {
                self.phase = Phase::Draining;
                self.failed = true;
                self.pending = None;
                self.scan = None;
            },
            Phase::Draining => {
                self.failed = true;
            },
            Phase::Stopped => {},
        }
    }

    /// The input queue was closed and the pool told to wind down.
    pub fn input_closed(&mut self)
        requires
            old(self).wf(),
            old(self)@.action() == Action::CloseInput,
        ensures
            final(self).wf(),
            final(self).params == old(self).params,
            final(self)@ == old(self)@.input_closed(),
    {
        self.input_open = false;
    }

    /// The pool reported its state. The driver stops when no thread lives and
    /// no finished tile waits; it says whether it has stopped.
    pub fn pool_status(&mut self, threads: usize, output_empty: bool) -> (stopped: bool)
        requires
            old(self).wf(),
            old(self)@.action() == Action::Drain,
        ensures
            final(self).wf(),
            final(self).params == old(self).params,
            final(self)@ == old(self)@.pool_status(threads as nat, output_empty),
            stopped == (threads == 0 && output_empty),
    {
        if threads == 0 && output_empty {
            self.phase = Phase::Stopped;
            true
        } else {
            false
        }
    }

    /// The number of tiles that were sent and have not come back.
    pub fn in_flight(&self) -> (n: u128)
        requires
            self.wf(),
        ensures
            n == self@.in_flight(),
    {
        self.dispatched - self.delivered - self.dropped
    }

    /// Whether the run is over and no callback failed.
    pub fn succeeded(&self) -> (ok: bool)
        ensures
            ok == (self.phase == Phase::Stopped && !self.failed),
    {
        self.phase == Phase::Stopped && !self.failed
    }
}

} // verus!
