//! The pipeline as a whole: the driver together with the two queues and the
//! worker pool.
//!
//! The driver of [`crate::pipe`] sees only its own counters. This module
//! adds what it cannot see (how many tiles wait in the input queue, how many
//! a worker holds, how many wait in the output queue, how many threads
//! live) and the moves of the pool, and shows that no tile is lost: when the
//! driver stops, every tile that it sent has come back.

use crate::pipe::{Action, DriverView, Phase, TickResult};
use vstd::prelude::*;

verus! {

/// The state of the whole pipeline.
pub struct Pipeline {
    pub driver: DriverView,
    /// The tiles that wait in the input queue.
    pub queued: nat,
    /// The tiles that a worker is rendering.
    pub working: nat,
    /// The tiles that wait in the output queue.
    pub finished: nat,
    /// The worker threads that live.
    pub threads: nat,
}

/// One move of the pipeline: the first seven are the driver's transitions,
/// the last three are the pool's.
pub enum Step {
    FrameArrived { has_frame: bool },
    TileSent,
    TileDone,
    Ticked { answer: TickResult },
    Fail,
    InputClosed,
    PoolStatus,
    /// A worker takes a tile out of the input queue.
    WorkerTakes,
    /// A worker puts its tile, fully rendered, into the output queue.
    WorkerFinishes,
    /// A worker thread that holds no tile ends. It does so only once the
    /// input queue is closed and empty.
    WorkerExits,
}

impl Pipeline {
    /// The pipeline at the start of a run.
    pub open spec fn initial(per_frame: nat, threads: nat) -> Pipeline {
        Pipeline {
            driver: DriverView::initial(per_frame),
            queued: 0,
            working: 0,
            finished: 0,
            threads,
        }
    }

    /// Whether the move can be made in this state.
    pub open spec fn enabled(self, step: Step) -> bool {
        match step {
            Step::FrameArrived { has_frame } => self.driver.action() is RequestFrame,
            Step::TileSent => self.driver.action() == Action::Exchange,
            Step::TileDone => self.driver.phase != Phase::Stopped && self.finished > 0,
            Step::Ticked { answer } => true,
            Step::Fail => true,
            Step::InputClosed => self.driver.action() == Action::CloseInput,
            Step::PoolStatus => self.driver.action() == Action::Drain,
            Step::WorkerTakes => self.queued > 0 && self.working < self.threads,
            Step::WorkerFinishes => self.working > 0,
            Step::WorkerExits => self.working < self.threads && self.queued == 0
                && !self.driver.input_open,
        }
    }

    /// The state after the move.
    pub open spec fn next(self, step: Step) -> Pipeline {
        match step {
            Step::FrameArrived { has_frame } => Pipeline {
                driver: self.driver.frame_arrived(has_frame),
                ..self
            },
            Step::TileSent => Pipeline {
                driver: self.driver.tile_sent(),
                queued: self.queued + 1,
                ..self
            },
            Step::TileDone => Pipeline {
                driver: self.driver.tile_done(),
                finished: (self.finished - 1) as nat,
                ..self
            },
            Step::Ticked { answer } => Pipeline { driver: self.driver.ticked(answer), ..self },
            Step::Fail => Pipeline { driver: self.driver.fail(), ..self },
            Step::InputClosed => Pipeline { driver: self.driver.input_closed(), ..self },
            Step::PoolStatus => Pipeline {
                driver: self.driver.pool_status(self.threads, self.finished == 0),
                ..self
            },
            Step::WorkerTakes => Pipeline {
                queued: (self.queued - 1) as nat,
                working: self.working + 1,
                ..self
            },
            Step::WorkerFinishes => Pipeline {
                working: (self.working - 1) as nat,
                finished: self.finished + 1,
                ..self
            },
            Step::WorkerExits => Pipeline { threads: (self.threads - 1) as nat, ..self },
        }
    }

    /// Every tile that was sent is in exactly one place: in the input queue,
    /// with a worker, in the output queue, or back with the driver.
    pub open spec fn conserved(self) -> bool {
        self.driver.dispatched == self.queued + self.working + self.finished
            + self.driver.delivered + self.driver.dropped
    }

    /// What holds of every state that the pipeline can reach.
    pub open spec fn inv(self) -> bool {
        &&& self.driver.inv()
        &&& self.conserved()
        &&& self.working <= self.threads
        &&& self.threads == 0 ==> self.queued == 0 && !self.driver.input_open
    }

    /// The state after a sequence of moves.
    pub open spec fn run(self, steps: Seq<Step>) -> Pipeline
        decreases steps.len(),
    {
        if steps.len() == 0 {
            self
        } else {
            self.run(steps.drop_last()).next(steps.last())
        }
    }

    /// Whether each move of the sequence can be made when its turn comes.
    pub open spec fn allows(self, steps: Seq<Step>) -> bool
        decreases steps.len(),
    {
        steps.len() > 0 ==> self.allows(steps.drop_last()) && self.run(steps.drop_last()).enabled(
            steps.last(),
        )
    }
}

/// A run starts in a state of which the invariant holds, if the pool has a
/// thread at all.
pub proof fn lemma_initial_inv(per_frame: nat, threads: nat)
    requires
        threads > 0,
    ensures
        Pipeline::initial(per_frame, threads).inv(),
{
    assert(0 * per_frame == 0) by (nonlinear_arith);
}

/// No move breaks the invariant. A finished tile that the driver collects is
/// always one that it has in flight.
pub proof fn lemma_step_inv(p: Pipeline, step: Step)
    requires
        p.inv(),
        p.enabled(step),
    ensures
        p.next(step).inv(),
        step is TileDone ==> p.driver.in_flight() > 0,
        p.next(step).driver.per_frame == p.driver.per_frame,
{
    let d = p.driver;
    match step {
        Step::FrameArrived { has_frame } => {
            let f = d.frames as int;
            let t = d.per_frame as int;
            assert((f + 1) * t == f * t + t) by (nonlinear_arith);
        },
        _ => {},
    }
}

/// Once the driver has stopped, nothing is left in the queues or with a
/// worker, and every tile that was sent has come back: to the consumer, or,
/// after a failure, set aside. A run that was neither cancelled nor failed
/// has sent every tile of every frame.
pub proof fn lemma_stopped_nothing_lost(p: Pipeline)
    requires
        p.inv(),
        p.driver.phase == Phase::Stopped,
    ensures
        p.queued == 0 && p.working == 0 && p.finished == 0 ==> p.driver.delivered
            + p.driver.dropped == p.driver.dispatched,
        !p.driver.failed ==> p.driver.dropped == 0,
        !p.driver.failed && !p.driver.cancelled ==> p.driver.dispatched == p.driver.frames
            * p.driver.per_frame,
{
}

/// The driver stops only when the pool reports that no thread lives and no
/// finished tile waits; at that moment nothing is in flight.
pub proof fn lemma_stop_is_clean(p: Pipeline, step: Step)
    requires
        p.inv(),
        p.enabled(step),
        p.driver.phase != Phase::Stopped,
        p.next(step).driver.phase == Phase::Stopped,
    ensures
        step is PoolStatus,
        p.next(step).queued == 0,
        p.next(step).working == 0,
        p.next(step).finished == 0,
        p.next(step).driver.in_flight() == 0,
{
}

/// The pipeline delivers one finished tile for each tile that it sent: in
/// every run from the start, however the moves of driver and pool
/// interleave and whenever a cancellation arrives, a stopped driver has
/// collected every tile that it sent, and, unless a callback failed,
/// handed each to the consumer.
pub proof fn lemma_every_tile_comes_back(per_frame: nat, threads: nat, steps: Seq<Step>)
    requires
        threads > 0,
        Pipeline::initial(per_frame, threads).allows(steps),
    ensures
        Pipeline::initial(per_frame, threads).run(steps).inv(),
        Pipeline::initial(per_frame, threads).run(steps).driver.phase == Phase::Stopped ==> {
            let end = Pipeline::initial(per_frame, threads).run(steps);
            &&& end.driver.in_flight() == 0
            &&& !end.driver.failed ==> end.driver.delivered == end.driver.dispatched
            &&& !end.driver.failed && !end.driver.cancelled ==> end.driver.delivered
                == end.driver.frames * per_frame
        },
    decreases steps.len(),
{
    let start = Pipeline::initial(per_frame, threads);
    lemma_run_keeps(start, steps);
}

/// A run keeps the invariant, the size of a frame, and the emptiness of a
/// stopped pipeline.
pub proof fn lemma_run_keeps(start: Pipeline, steps: Seq<Step>)
    requires
        start == Pipeline::initial(start.driver.per_frame, start.threads),
        start.threads > 0,
        start.allows(steps),
    ensures
        start.run(steps).inv(),
        start.run(steps).driver.per_frame == start.driver.per_frame,
        start.run(steps).driver.phase == Phase::Stopped ==> start.run(steps).queued == 0
            && start.run(steps).working == 0 && start.run(steps).finished == 0,
    decreases steps.len(),
{
    if steps.len() == 0 {
        lemma_initial_inv(start.driver.per_frame, start.threads);
    } else {
        lemma_run_keeps(start, steps.drop_last());
        let before = start.run(steps.drop_last());
        lemma_step_inv(before, steps.last());
        if before.driver.phase != Phase::Stopped && before.next(steps.last()).driver.phase
            == Phase::Stopped {
            lemma_stop_is_clean(before, steps.last());
        }
    }
}

} // verus!
