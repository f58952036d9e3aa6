//! The playback scheduler: a single consumer that drains the lanes in
//! strict frame order at a fixed cadence.
//!
//! On every due tick the scheduler resets its tick baseline to the
//! observed time, attempts one non-blocking pop from the lane that owns
//! the current frame index, and advances its cursor only when a frame
//! actually came out. An empty queue (underrun) is not an error: the
//! cursor stays put and the same frame is requested on a later tick. A
//! disconnected producer is fatal and halts playback.

use vstd::prelude::*;
use crate::partition::spec_lane_of;

verus! {

/// What a non-blocking pop from the target lane's queue observed.
#[derive(Clone, Copy, Debug, PartialEq, Eq, Structural)]
pub enum PopOutcome {
    /// A frame came out and was rendered.
    Popped,
    /// Underrun: the owning lane has not produced the frame yet.
    Empty,
    /// The producer side is gone for good.
    Disconnected,
}

/// The playback scheduler's state.
pub struct Scheduler {
    /// How many lanes partition the frame sequence.
    pub lane_count: u64,
    /// Total number of frames in the sequence.
    pub total_frames: u64,
    /// Minimum time between frame advances, in time units.
    pub frame_interval: u64,
    /// Playback cursor: the next global frame index to emit.
    pub cursor: u64,
    /// When the last due tick was taken.
    pub last_tick: u64,
    /// Set once a fatal queue error has ended playback.
    pub halted: bool,
}

/// The scheduler state after one due tick that observed `outcome`: the
/// tick baseline resets to `now`, the cursor advances exactly when a
/// frame was popped, and a disconnected producer halts playback.
pub open spec fn spec_tick(pre: Scheduler, now: u64, outcome: PopOutcome) -> Scheduler {
    Scheduler {
        last_tick: now,
        cursor: if outcome is Popped {
            (pre.cursor + 1) as u64
        } else {
            pre.cursor
        },
        halted: outcome is Disconnected,
        ..pre
    }
}

impl Scheduler {
    /// Scheduler well-formedness: the cursor never passes the end of the
    /// frame sequence.
    pub open spec fn wf(&self) -> bool {
        &&& self.lane_count >= 1
        &&& self.cursor <= self.total_frames
    }

    /// All frames have been emitted.
    pub open spec fn spec_finished(&self) -> bool {
        self.cursor >= self.total_frames
    }

    /// A tick is due once more than one frame interval has passed since
    /// the last taken tick.
    pub open spec fn spec_due(&self, now: u64) -> bool {
        now > self.last_tick + self.frame_interval
    }

    /// Builds the scheduler at frame zero with an untouched tick baseline.
    pub fn new(lane_count: u64, total_frames: u64, frame_interval: u64) -> (s: Scheduler)
        requires
            lane_count >= 1,
        ensures
            s.wf(),
            s.lane_count == lane_count,
            s.total_frames == total_frames,
            s.frame_interval == frame_interval,
            s.cursor == 0,
            s.last_tick == 0,
            !s.halted,
    {
        Scheduler {
            lane_count,
            total_frames,
            frame_interval,
            cursor: 0,
            last_tick: 0,
            halted: false,
        }
    }

    /// Whether a tick is due at time `now`.
    pub fn due(&self, now: u64) -> (r: bool)
        ensures
            r == self.spec_due(now),
    {
        now > self.last_tick && now - self.last_tick > self.frame_interval
    }

    /// All frames have been emitted.
    pub fn finished(&self) -> (r: bool)
        ensures
            r == self.spec_finished(),
    {
        self.cursor >= self.total_frames
    }

    /// The lane that must hold the current frame: the same partition
    /// mapping that assigned the index to its loader, so the consumer and
    /// the producers can never disagree about ownership.
    pub fn target_lane(&self) -> (lane: u64)
        requires
            self.wf(),
        ensures
            lane == spec_lane_of(self.cursor as int, self.lane_count as int),
            lane < self.lane_count,
    {
        crate::partition::lane_of(self.cursor, self.lane_count)
    }

    /// Takes one due tick that observed `outcome` on the target lane.
    pub fn on_tick(&mut self, now: u64, outcome: PopOutcome)
        requires
            old(self).wf(),
            old(self).spec_due(now),
            !old(self).halted,
            !old(self).spec_finished(),
        ensures
            final(self).wf(),
            *final(self) == spec_tick(*old(self), now, outcome),
            final(self).cursor <= old(self).cursor + 1,
    {
        self.last_tick = now;
        match outcome {
            PopOutcome::Popped => {
                self.cursor = self.cursor + 1;
            },
            PopOutcome::Empty => {
            },
            PopOutcome::Disconnected => {
                self.halted = true;
            },
        }
    }
}

/// Pacing: one due tick emits at most one frame, however many frames are
/// already buffered, and it resets the tick baseline to the observed
/// time, so no further frame can be emitted until more than one whole
/// frame interval after `now` has passed again.
pub proof fn lemma_pacing(pre: Scheduler, now: u64, outcome: PopOutcome, later: u64)
    requires
        pre.wf(),
        pre.cursor < pre.total_frames,
    ensures
        spec_tick(pre, now, outcome).cursor <= pre.cursor + 1,
        later <= now + pre.frame_interval ==> !spec_tick(pre, now, outcome).spec_due(later),
{
}

/// Underrun resilience: a tick that finds the target queue empty leaves
/// the cursor, the target lane and the halted flag unchanged, and once
/// the frame is available a later due tick pops it and advances the
/// cursor — deferring, never failing.
pub proof fn lemma_underrun_recovery(pre: Scheduler, now: u64, later: u64)
    requires
        pre.wf(),
        pre.spec_due(now),
        !pre.halted,
        !pre.spec_finished(),
        spec_tick(pre, now, PopOutcome::Empty).spec_due(later),
    ensures
        spec_tick(pre, now, PopOutcome::Empty).cursor == pre.cursor,
        !spec_tick(pre, now, PopOutcome::Empty).halted,
        spec_lane_of(spec_tick(pre, now, PopOutcome::Empty).cursor as int, pre.lane_count as int)
            == spec_lane_of(pre.cursor as int, pre.lane_count as int),
        spec_tick(spec_tick(pre, now, PopOutcome::Empty), later, PopOutcome::Popped).cursor
            == pre.cursor + 1,
{
}

/// The frame interval for a target frame rate, in time units per frame.
pub fn frame_interval_of(framerate: u64) -> (r: u64)
    requires
        framerate >= 1,
    ensures
        r == 1000u64 / framerate,
{
    1000 / framerate
}

/// The preload depth actually used: the requested one, or one second's
/// worth of frames when no explicit depth was requested.
pub fn effective_preload(requested: u64, framerate: u64) -> (r: u64)
    ensures
        r == (if requested > 0 {
            requested
        } else {
            framerate
        }),
{
    if requested > 0 {
        requested
    } else {
        framerate
    }
}

/// The lane count actually used: the requested one, or the machine's
/// available parallelism when no explicit count was requested.
pub fn effective_lane_count(requested: u64, available: u64) -> (r: u64)
    requires
        available >= 1,
    ensures
        r == (if requested > 0 {
            requested
        } else {
            available
        }),
        r >= 1,
{
    if requested > 0 {
        requested
    } else {
        available
    }
}

} // verus!
