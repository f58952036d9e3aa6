//! Frame lanes: one bounded FIFO of decoded frames per loader worker,
//! together with that worker's load cursor.
//!
//! A lane owns the strided index subset assigned to it by the partition
//! and produces those indices in ascending order. Its queue never holds
//! more than the configured preload depth, the worker's cursor only
//! advances, and a fatal load error stops this lane alone: no other
//! lane's state is touched.

use vstd::prelude::*;
use crate::frame::FrameBuffer;
use crate::partition::spec_lane_of;

verus! {

/// What a loader worker must do next.
#[derive(Clone, Copy, Debug, PartialEq, Eq, Structural)]
pub enum WorkerAction {
    /// Every owned index has been produced, or the lane has stopped.
    Finished,
    /// The queue is at preload depth: wait briefly, then reconsider.
    Throttle,
    /// Load, decode and resize the frame with this index.
    Load(u64),
}

/// What a worker with load cursor `cursor` must do next, given the queue
/// length it observed: finish once stopped or out of owned indices,
/// throttle while the queue is at preload depth, and otherwise load the
/// owed index.
pub open spec fn spec_worker_action(
    stopped: bool,
    cursor: u64,
    total_frames: u64,
    queue_len: usize,
    preload_depth: usize,
) -> WorkerAction {
    if stopped || cursor >= total_frames {
        WorkerAction::Finished
    } else if queue_len >= preload_depth {
        WorkerAction::Throttle
    } else {
        WorkerAction::Load(cursor)
    }
}

/// The worker decision over an observed queue length. This is the same
/// policy `Lane::next_action` applies to its own queue, for a caller
/// whose queue lives elsewhere (a channel shared with the consumer): a
/// queue at preload depth never yields a load, which is the backpressure
/// bound.
pub fn worker_action(
    stopped: bool,
    cursor: u64,
    total_frames: u64,
    queue_len: usize,
    preload_depth: usize,
) -> (a: WorkerAction)
    ensures
        a == spec_worker_action(stopped, cursor, total_frames, queue_len, preload_depth),
        a matches WorkerAction::Load(i) ==> {
            &&& i == cursor
            &&& i < total_frames
            &&& queue_len < preload_depth
            &&& !stopped
        },
{
    if stopped || cursor >= total_frames {
        WorkerAction::Finished
    } else if queue_len >= preload_depth {
        WorkerAction::Throttle
    } else {
        WorkerAction::Load(cursor)
    }
}

/// The next index a lane owes after loading `index`: one stride further
/// on. By the partition's stride property it is the smallest index above
/// `index` that the same lane owns.
pub fn next_owned_after(index: u64, lane_count: u64) -> (next: u64)
    requires
        lane_count >= 1,
        index + lane_count <= u64::MAX,
    ensures
        next == index + lane_count,
        spec_lane_of(next as int, lane_count as int) == spec_lane_of(
            index as int,
            lane_count as int,
        ),
        forall|j: int|
            index < j < next ==> spec_lane_of(j, lane_count as int) != spec_lane_of(
                index as int,
                lane_count as int,
            ),
{
    proof {
        crate::partition::lemma_stride(index as int, lane_count as int);
    }
    index + lane_count
}

/// A lane: a bounded queue of decoded frames plus its worker's cursor.
pub struct Lane {
    /// This lane's id, in `[0, lane_count)`.
    pub lane_id: u64,
    /// How many lanes partition the frame sequence.
    pub lane_count: u64,
    /// Total number of frames in the sequence.
    pub total_frames: u64,
    /// Queue capacity: how many frames may be buffered ahead.
    pub preload_depth: usize,
    /// Decoded frames owned by this lane, oldest first.
    pub queue: Vec<FrameBuffer>,
    /// The frame index the front of the queue holds: the next index the
    /// consumer will receive from this lane.
    pub next_out: u64,
    /// Load cursor: the next owned index this lane still owes.
    pub cursor: u64,
    /// Set once a fatal load or decode error has stopped this lane.
    pub stopped: bool,
}

impl Lane {
    /// The frames currently buffered, oldest first.
    pub open spec fn frames(&self) -> Seq<FrameBuffer> {
        self.queue@
    }

    /// Lane well-formedness. The queue never exceeds the preload depth;
    /// the cursor and the front index stay on this lane's stride, with
    /// exactly one owned index per buffered frame between them.
    pub open spec fn wf(&self) -> bool {
        &&& self.lane_count >= 1
        &&& self.lane_id < self.lane_count
        &&& self.total_frames + self.lane_count <= u64::MAX
        &&& self.queue@.len() <= self.preload_depth
        &&& spec_lane_of(self.cursor as int, self.lane_count as int) == self.lane_id
        &&& spec_lane_of(self.next_out as int, self.lane_count as int) == self.lane_id
        &&& self.cursor == self.next_out + self.queue@.len() * self.lane_count
        &&& self.cursor < self.total_frames + self.lane_count
    }

    /// Creates the lane for `lane_id` with an empty queue; its first owed
    /// index is `lane_id` itself, the first index of its stride.
    pub fn new(lane_id: u64, lane_count: u64, total_frames: u64, preload_depth: usize) -> (lane:
        Lane)
        requires
            lane_count >= 1,
            lane_id < lane_count,
            total_frames + lane_count <= u64::MAX,
        ensures
            lane.wf(),
            lane.lane_id == lane_id,
            lane.lane_count == lane_count,
            lane.total_frames == total_frames,
            lane.preload_depth == preload_depth,
            lane.frames() == Seq::<FrameBuffer>::empty(),
            lane.next_out == lane_id,
            lane.cursor == lane_id,
            !lane.stopped,
    {
        proof {
            vstd::arithmetic::div_mod::lemma_small_mod(lane_id as nat, lane_count as nat);
        }
        Lane {
            lane_id,
            lane_count,
            total_frames,
            preload_depth,
            queue: Vec::new(),
            next_out: lane_id,
            cursor: lane_id,
            stopped: false,
        }
    }

    /// What this lane's worker must do next: finish once stopped or out
    /// of owned indices, throttle while the queue is at preload depth,
    /// and otherwise load the owed index. A full queue never yields a
    /// load: this is the backpressure policy that keeps the buffered
    /// frame count at or below the preload depth.
    pub fn next_action(&self) -> (a: WorkerAction)
        requires
            self.wf(),
        ensures
            a == spec_worker_action(
                self.stopped,
                self.cursor,
                self.total_frames,
                self.frames().len() as usize,
                self.preload_depth,
            ),
            a matches WorkerAction::Load(i) ==> {
                &&& i == self.cursor
                &&& i < self.total_frames
                &&& spec_lane_of(i as int, self.lane_count as int) == self.lane_id
                &&& self.frames().len() < self.preload_depth
            },
    {
        worker_action(
            self.stopped,
            self.cursor,
            self.total_frames,
            self.queue.len(),
            self.preload_depth,
        )
    }

    /// Accepts the decoded frame for the owed index and advances the
    /// cursor to the next index of this lane's stride. The queue grows by
    /// exactly one frame and stays within the preload depth.
    pub fn deliver(&mut self, fb: FrameBuffer)
        requires
            old(self).wf(),
            !old(self).stopped,
            old(self).cursor < old(self).total_frames,
            old(self).frames().len() < old(self).preload_depth,
        ensures
            final(self).wf(),
            final(self).frames() == old(self).frames().push(fb),
            final(self).frames().len() == old(self).frames().len() + 1,
            final(self).frames().len() <= final(self).preload_depth,
            final(self).cursor == old(self).cursor + old(self).lane_count,
            final(self).next_out == old(self).next_out,
            final(self).stopped == old(self).stopped,
            final(self).lane_id == old(self).lane_id,
            final(self).lane_count == old(self).lane_count,
            final(self).total_frames == old(self).total_frames,
            final(self).preload_depth == old(self).preload_depth,
    {
        proof {
            crate::partition::lemma_stride(self.cursor as int, self.lane_count as int);
            assert((self.queue@.len() + 1) * self.lane_count == self.queue@.len()
                * self.lane_count + self.lane_count) by (nonlinear_arith);
        }
        self.queue.push(fb);
        self.cursor = self.cursor + self.lane_count;
    }

    /// Records a fatal load or decode error: this lane stops producing,
    /// and nothing else about it — or about any other lane — changes.
    pub fn fail(&mut self)
        requires
            old(self).wf(),
        ensures
            final(self).wf(),
            final(self).stopped,
            final(self).frames() == old(self).frames(),
            final(self).cursor == old(self).cursor,
            final(self).next_out == old(self).next_out,
            final(self).lane_id == old(self).lane_id,
            final(self).lane_count == old(self).lane_count,
            final(self).total_frames == old(self).total_frames,
            final(self).preload_depth == old(self).preload_depth,
    {
        self.stopped = true;
    }

    /// Non-blocking pop: takes the oldest buffered frame, the one for
    /// index `next_out`, or returns `None` on an empty queue without
    /// changing anything.
    pub fn pop(&mut self) -> (r: Option<FrameBuffer>)
        requires
            old(self).wf(),
        ensures
            final(self).wf(),
            old(self).frames().len() == 0 ==> {
                &&& r is None
                &&& *final(self) == *old(self)
            },
            old(self).frames().len() > 0 ==> {
                &&& r == Some(old(self).frames()[0])
                &&& final(self).frames() == old(self).frames().skip(1)
                &&& final(self).next_out == old(self).next_out + old(self).lane_count
            },
            final(self).cursor == old(self).cursor,
            final(self).stopped == old(self).stopped,
            final(self).lane_id == old(self).lane_id,
            final(self).lane_count == old(self).lane_count,
            final(self).total_frames == old(self).total_frames,
            final(self).preload_depth == old(self).preload_depth,
    {
        if self.queue.len() == 0 {
            None
        } else {
            proof {
                assert(self.queue@.len() * self.lane_count == (self.queue@.len() - 1)
                    * self.lane_count + self.lane_count) by (nonlinear_arith);
                assert((self.queue@.len() - 1) * self.lane_count >= 0) by (nonlinear_arith)
                    requires
                        self.queue@.len() >= 1,
                        self.lane_count >= 1,
                ;
            }
            proof {
                crate::partition::lemma_stride(self.next_out as int, self.lane_count as int);
            }
            let fb = self.queue.remove(0);
            self.next_out = self.next_out + self.lane_count;
            proof {
                assert(self.frames() =~= old(self).frames().skip(1));
            }
            Some(fb)
        }
    }
}

} // verus!
