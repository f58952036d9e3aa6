use frame_pipeline::frame::FrameBuffer;
use frame_pipeline::lane::{next_owned_after, worker_action, Lane, WorkerAction};

fn tagged(tag: u8) -> FrameBuffer {
    FrameBuffer::new(1, 1, vec![tag, 0, 0])
}

#[test]
fn lane_loads_its_stride_in_ascending_order() {
    // Lane 1 of 3, 10 frames: owns 1, 4, 7.
    let mut lane = Lane::new(1, 3, 10, 4);
    assert_eq!(lane.next_action(), WorkerAction::Load(1));
    lane.deliver(tagged(1));
    assert_eq!(lane.next_action(), WorkerAction::Load(4));
    lane.deliver(tagged(4));
    assert_eq!(lane.next_action(), WorkerAction::Load(7));
    lane.deliver(tagged(7));
    assert_eq!(lane.next_action(), WorkerAction::Finished);
}

#[test]
fn lane_throttles_at_preload_depth() {
    // Backpressure: with a preload depth of 2, two buffered frames
    // stop the worker from loading more.
    let mut lane = Lane::new(0, 1, 100, 2);
    assert_eq!(lane.next_action(), WorkerAction::Load(0));
    lane.deliver(tagged(0));
    assert_eq!(lane.queue.len(), 1);
    lane.deliver(tagged(1));
    assert_eq!(lane.queue.len(), 2);
    assert_eq!(lane.next_action(), WorkerAction::Throttle);
    // Draining one frame makes room for exactly one more.
    assert!(lane.pop().is_some());
    assert_eq!(lane.queue.len(), 1);
    assert_eq!(lane.next_action(), WorkerAction::Load(2));
}

#[test]
fn lane_pops_in_fifo_order() {
    let mut lane = Lane::new(0, 2, 10, 3);
    lane.deliver(tagged(0));
    lane.deliver(tagged(2));
    lane.deliver(tagged(4));
    assert_eq!(lane.pop().unwrap().pixels[0], 0);
    assert_eq!(lane.pop().unwrap().pixels[0], 2);
    assert_eq!(lane.pop().unwrap().pixels[0], 4);
    assert!(lane.pop().is_none());
}

#[test]
fn lane_pop_on_empty_returns_none() {
    let mut lane = Lane::new(0, 1, 5, 2);
    assert!(lane.pop().is_none());
    assert!(!lane.stopped);
}

#[test]
fn worker_action_applies_the_backpressure_policy() {
    // A queue at preload depth never yields a load, whatever the cursor.
    assert_eq!(worker_action(false, 3, 10, 2, 2), WorkerAction::Throttle);
    assert_eq!(worker_action(false, 3, 10, 5, 2), WorkerAction::Throttle);
    assert_eq!(worker_action(false, 3, 10, 1, 2), WorkerAction::Load(3));
    assert_eq!(worker_action(false, 10, 10, 0, 2), WorkerAction::Finished);
    assert_eq!(worker_action(true, 3, 10, 0, 2), WorkerAction::Finished);
}

#[test]
fn next_owned_is_one_stride_on() {
    assert_eq!(next_owned_after(1, 3), 4);
    assert_eq!(next_owned_after(4, 3), 7);
    assert_eq!(next_owned_after(0, 1), 1);
}

#[test]
fn lane_stops_after_failure() {
    let mut lane = Lane::new(0, 1, 5, 2);
    lane.deliver(tagged(0));
    lane.fail();
    assert!(lane.stopped);
    assert_eq!(lane.next_action(), WorkerAction::Finished);
    // Already buffered frames stay available after the failure.
    assert_eq!(lane.pop().unwrap().pixels[0], 0);
}
