//! The assembled pipeline: all lanes plus the scheduler, stepped one
//! event at a time.
//!
//! This is the synchronous view of the whole system: deliveries into the
//! lane queues and scheduler ticks interleave in any order, as they do
//! when the workers run concurrently, and the well-formedness invariant
//! is preserved by every step. The invariant carries the ordering
//! guarantee: the frames emitted so far are exactly the global indices
//! `0, 1, 2, ...` up to the playback cursor, in that order, because the
//! scheduler routes each index to the lane the partition assigned it to
//! and each lane buffers its owned indices in ascending order.

use vstd::prelude::*;
use crate::frame::FrameBuffer;
use crate::lane::Lane;
use crate::partition::spec_lane_of;
use crate::scheduler::{PopOutcome, Scheduler, spec_tick};

verus! {

/// What one scheduler iteration did.
pub enum TickResult {
    /// The tick was not due yet: nothing changed.
    NotDue,
    /// The due frame was popped from its lane; render it.
    Frame(FrameBuffer),
    /// Underrun: the owning lane has not produced the frame yet. The
    /// cursor stays put and the same frame is requested on a later tick.
    Underrun,
}

/// The whole pipeline: one lane per loader worker and the scheduler.
pub struct Pipeline {
    /// The lanes, indexed by lane id.
    pub lanes: Vec<Lane>,
    /// The playback scheduler.
    pub sched: Scheduler,
    /// The global frame indices emitted so far, in emission order.
    pub emitted: Ghost<Seq<u64>>,
}

impl Pipeline {
    /// A lane agrees with the scheduler's configuration, and the index
    /// it owes the consumer next lies within one stride of the playback
    /// cursor.
    pub open spec fn lane_ok(lane: Lane, w: int, sched: Scheduler) -> bool {
        &&& lane.wf()
        &&& lane.lane_id == w
        &&& lane.lane_count == sched.lane_count
        &&& lane.total_frames == sched.total_frames
        &&& sched.cursor <= lane.next_out < sched.cursor + sched.lane_count
    }

    /// The lane that owns the current frame index.
    pub open spec fn target(&self) -> int {
        spec_lane_of(self.sched.cursor as int, self.sched.lane_count as int)
    }

    /// System well-formedness: every lane is aligned with the scheduler,
    /// and the emission history is exactly `0, 1, ..., cursor - 1`.
    pub open spec fn wf(&self) -> bool {
        &&& self.sched.wf()
        &&& self.lanes@.len() == self.sched.lane_count
        &&& forall|w: int|
            0 <= w < self.lanes@.len() ==> Self::lane_ok(
                #[trigger] self.lanes@[w],
                w,
                self.sched,
            )
        &&& self.emitted@ == Seq::new(self.sched.cursor as nat, |k: int| k as u64)
    }

    /// Builds the pipeline: `lane_count` empty lanes and the scheduler
    /// at frame zero.
    pub fn new(lane_count: u64, total_frames: u64, preload_depth: usize, frame_interval: u64) -> (p:
        Pipeline)
        requires
            1 <= lane_count,
            lane_count <= usize::MAX,
            total_frames + lane_count <= u64::MAX,
        ensures
            p.wf(),
            p.sched.lane_count == lane_count,
            p.sched.total_frames == total_frames,
            p.sched.frame_interval == frame_interval,
            p.sched.cursor == 0,
            p.sched.last_tick == 0,
            !p.sched.halted,
            p.lanes@.len() == lane_count,
            forall|w: int|
                0 <= w < lane_count ==> {
                    &&& (#[trigger] p.lanes@[w]).frames() == Seq::<FrameBuffer>::empty()
                    &&& !p.lanes@[w].stopped
                    &&& p.lanes@[w].preload_depth == preload_depth
                },
            p.emitted@ == Seq::<u64>::empty(),
    {
        let mut lanes: Vec<Lane> = Vec::new();
        let mut w: u64 = 0;
        while w < lane_count
            invariant
                w <= lane_count,
                lane_count >= 1,
                total_frames + lane_count <= u64::MAX,
                lanes@.len() == w,
                forall|k: int|
                    0 <= k < w ==> {
                        &&& (#[trigger] lanes@[k]).wf()
                        &&& lanes@[k].lane_id == k
                        &&& lanes@[k].lane_count == lane_count
                        &&& lanes@[k].total_frames == total_frames
                        &&& lanes@[k].preload_depth == preload_depth
                        &&& lanes@[k].frames() == Seq::<FrameBuffer>::empty()
                        &&& lanes@[k].next_out == k
                        &&& lanes@[k].cursor == k
                        &&& !lanes@[k].stopped
                    },
            decreases lane_count - w,
        {
            let lane = Lane::new(w, lane_count, total_frames, preload_depth);
            lanes.push(lane);
            w = w + 1;
        }
        let sched = Scheduler::new(lane_count, total_frames, frame_interval);
        let p = Pipeline { lanes, sched, emitted: Ghost(Seq::empty()) };
        proof {
            assert(p.emitted@ =~= Seq::new(p.sched.cursor as nat, |k: int| k as u64));
        }
        p
    }

    /// How many lanes the pipeline runs.
    pub fn lane_count(&self) -> (n: usize)
        ensures
            n == self.lanes@.len(),
    {
        self.lanes.len()
    }

    /// Hands lane `w` the decoded frame for the index its worker owes.
    /// Only that lane changes; its queue grows by one frame and stays
    /// within the preload depth.
    pub fn deliver(&mut self, w: usize, fb: FrameBuffer)
        requires
            old(self).wf(),
            w < old(self).lanes@.len(),
            !old(self).lanes@[w as int].stopped,
            old(self).lanes@[w as int].cursor < old(self).lanes@[w as int].total_frames,
            old(self).lanes@[w as int].frames().len() < old(self).lanes@[w as int].preload_depth,
        ensures
            final(self).wf(),
            final(self).sched == old(self).sched,
            final(self).emitted == old(self).emitted,
            final(self).lanes@.len() == old(self).lanes@.len(),
            final(self).lanes@[w as int].frames() == old(self).lanes@[w as int].frames().push(fb),
            final(self).lanes@[w as int].cursor == old(self).lanes@[w as int].cursor + old(
                self,
            ).lanes@[w as int].lane_count,
            final(self).lanes@[w as int].stopped == old(self).lanes@[w as int].stopped,
            final(self).lanes@[w as int].preload_depth == old(self).lanes@[w as int].preload_depth,
            final(self).lanes@[w as int].next_out == old(self).lanes@[w as int].next_out,
            forall|k: int|
                0 <= k < old(self).lanes@.len() && k != w ==> final(self).lanes@[k] == old(
                    self,
                ).lanes@[k],
    {
        let lane = &mut self.lanes[w];
        lane.deliver(fb);
    }

    /// Records a fatal load or decode error on lane `w`. The failure is
    /// local: that lane stops producing, every other lane and the
    /// scheduler are exactly unchanged.
    pub fn fail_lane(&mut self, w: usize)
        requires
            old(self).wf(),
            w < old(self).lanes@.len(),
        ensures
            final(self).wf(),
            final(self).sched == old(self).sched,
            final(self).emitted == old(self).emitted,
            final(self).lanes@.len() == old(self).lanes@.len(),
            final(self).lanes@[w as int].stopped,
            final(self).lanes@[w as int].frames() == old(self).lanes@[w as int].frames(),
            forall|k: int|
                0 <= k < old(self).lanes@.len() && k != w ==> final(self).lanes@[k] == old(
                    self,
                ).lanes@[k],
    {
        let lane = &mut self.lanes[w];
        lane.fail();
    }

    /// One scheduler iteration at time `now`. When a tick is due, the
    /// scheduler resets its baseline to `now` and makes one non-blocking
    /// pop from the lane that owns the current frame index; the cursor
    /// advances exactly when a frame came out, and at most one frame is
    /// emitted however many are buffered. When no tick is due, nothing
    /// changes at all.
    pub fn tick(&mut self, now: u64) -> (r: TickResult)
        requires
            old(self).wf(),
            !old(self).sched.halted,
            !old(self).sched.spec_finished(),
        ensures
            final(self).wf(),
            final(self).sched.cursor <= old(self).sched.cursor + 1,
            match r {
                TickResult::NotDue => {
                    &&& !old(self).sched.spec_due(now)
                    &&& *final(self) == *old(self)
                },
                TickResult::Frame(fb) => {
                    &&& old(self).sched.spec_due(now)
                    &&& old(self).lanes@[old(self).target()].frames().len() > 0
                    &&& fb == old(self).lanes@[old(self).target()].frames()[0]
                    &&& final(self).sched == spec_tick(old(self).sched, now, PopOutcome::Popped)
                    &&& final(self).sched.cursor == old(self).sched.cursor + 1
                    &&& final(self).emitted@ == old(self).emitted@.push(old(self).sched.cursor)
                    &&& final(self).lanes@[old(self).target()].frames()
                        == old(self).lanes@[old(self).target()].frames().skip(1)
                    &&& final(self).lanes@[old(self).target()].stopped
                        == old(self).lanes@[old(self).target()].stopped
                    &&& final(self).lanes@[old(self).target()].preload_depth
                        == old(self).lanes@[old(self).target()].preload_depth
                    &&& final(self).lanes@[old(self).target()].cursor
                        == old(self).lanes@[old(self).target()].cursor
                    &&& forall|k: int|
                        0 <= k < old(self).lanes@.len() && k != old(self).target()
                            ==> final(self).lanes@[k] == old(self).lanes@[k]
                },
                TickResult::Underrun => {
                    &&& old(self).sched.spec_due(now)
                    &&& old(self).lanes@[old(self).target()].frames().len() == 0
                    &&& final(self).sched == spec_tick(old(self).sched, now, PopOutcome::Empty)
                    &&& final(self).sched.cursor == old(self).sched.cursor
                    &&& final(self).emitted == old(self).emitted
                    &&& final(self).lanes@ == old(self).lanes@
                },
            },
    {
        if !self.sched.due(now) {
            return TickResult::NotDue;
        }
        let w = self.sched.target_lane();
        let _len = self.lanes.len();
        let wi: usize = w as usize;
        let ghost pre = *self;
        let ghost c = self.sched.cursor as int;
        let ghost n = self.sched.lane_count as int;
        proof {
            crate::partition::lemma_stride(c, n);
            assert(Self::lane_ok(pre.lanes@[w as int], w as int, pre.sched));
            assert(pre.lanes@[w as int].next_out == pre.sched.cursor) by {
                if pre.lanes@[w as int].next_out != pre.sched.cursor {
                    assert(spec_lane_of(pre.lanes@[w as int].next_out as int, n) != spec_lane_of(
                        c,
                        n,
                    ));
                }
            }
        }
        let lane = &mut self.lanes[wi];
        let popped = lane.pop();
        match popped {
            Some(fb) => {
                self.sched.on_tick(now, PopOutcome::Popped);
                proof {
                    self.emitted@ = pre.emitted@.push(pre.sched.cursor);
                    assert(self.emitted@ =~= Seq::new(
                        self.sched.cursor as nat,
                        |k: int| k as u64,
                    ));
                    assert forall|k: int|
                        0 <= k < self.lanes@.len() implies Self::lane_ok(
                        #[trigger] self.lanes@[k],
                        k,
                        self.sched,
                    ) by {
                        assert(Self::lane_ok(pre.lanes@[k], k, pre.sched));
                        if k != w as int {
                            assert(self.lanes@[k] == pre.lanes@[k]);
                            if pre.lanes@[k].next_out == pre.sched.cursor {
                                assert(spec_lane_of(pre.lanes@[k].next_out as int, n) == k);
                            }
                        }
                    }
                }
                TickResult::Frame(fb)
            },
            None => {
                self.sched.on_tick(now, PopOutcome::Empty);
                proof {
                    assert(self.lanes@ =~= pre.lanes@);
                    assert(self.emitted@ =~= Seq::new(
                        self.sched.cursor as nat,
                        |k: int| k as u64,
                    ));
                }
                TickResult::Underrun
            },
        }
    }
}

} // verus!
