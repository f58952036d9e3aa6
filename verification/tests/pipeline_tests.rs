use frame_pipeline::frame::FrameBuffer;
use frame_pipeline::pipeline::{Pipeline, TickResult};

fn tagged(tag: u8) -> FrameBuffer {
    FrameBuffer::new(1, 1, vec![tag, 0, 0])
}

fn tag_of(r: TickResult) -> Option<u8> {
    match r {
        TickResult::Frame(fb) => Some(fb.pixels[0]),
        _ => None,
    }
}

#[test]
fn two_lanes_drain_alternately_in_global_order() {
    // Four frames over two lanes: lane 0 owns {0, 2}, lane 1 owns {1, 3}.
    // The successful pops alternate lane0, lane1, lane0, lane1 and emit
    // the frames in exact global order, draining each lane twice.
    let mut p = Pipeline::new(2, 4, 2, 16);
    p.deliver(0, tagged(0));
    p.deliver(1, tagged(1));
    p.deliver(0, tagged(2));
    p.deliver(1, tagged(3));
    let mut order: Vec<u8> = Vec::new();
    let mut now: u64 = 0;
    for _ in 0..4 {
        now += 17;
        let r = p.tick(now);
        order.push(tag_of(r).expect("a buffered frame is due"));
    }
    assert_eq!(order, vec![0, 1, 2, 3]);
    assert_eq!(p.sched.cursor, 4);
    assert_eq!(p.lanes[0].queue.len(), 0);
    assert_eq!(p.lanes[1].queue.len(), 0);
}

#[test]
fn underrun_defers_without_failing() {
    let mut p = Pipeline::new(1, 1, 2, 16);
    // The frame is not produced yet: the pop finds nothing, no error is
    // raised and the cursor stays put.
    assert!(matches!(p.tick(17), TickResult::Underrun));
    assert_eq!(p.sched.cursor, 0);
    assert!(!p.sched.halted);
    // Once the frame is available, a later tick succeeds.
    p.deliver(0, tagged(9));
    assert!(matches!(p.tick(17 + 17), TickResult::Frame(_)));
    assert_eq!(p.sched.cursor, 1);
}

#[test]
fn failed_lane_is_isolated_and_starves_only_its_own_indices() {
    // Six frames over two lanes: lane 0 owns {0, 2, 4}, lane 1 owns
    // {1, 3, 5}. Lane 0 fails at its third frame; lane 1 keeps going.
    let mut p = Pipeline::new(2, 6, 3, 16);
    p.deliver(0, tagged(0));
    p.deliver(0, tagged(2));
    p.fail_lane(0);
    p.deliver(1, tagged(1));
    p.deliver(1, tagged(3));
    p.deliver(1, tagged(5));
    assert!(p.lanes[0].stopped);
    assert!(!p.lanes[1].stopped);
    // The cursor advances through frames 0..4 ...
    let mut now: u64 = 0;
    for expect in 0u8..4 {
        now += 17;
        assert_eq!(tag_of(p.tick(now)), Some(expect));
    }
    assert_eq!(p.sched.cursor, 4);
    // ... then stalls for good on lane 0's missing frame: every later
    // tick defers, nothing crashes, and lane 1's last frame stays put.
    for _ in 0..5 {
        now += 17;
        assert!(matches!(p.tick(now), TickResult::Underrun));
    }
    assert_eq!(p.sched.cursor, 4);
    assert!(!p.sched.halted);
    assert_eq!(p.lanes[1].queue.len(), 1);
}

#[test]
fn at_most_one_frame_per_elapsed_interval() {
    // Framerate 60 gives a 16 time-unit interval. With three frames
    // already buffered, each elapsed interval still emits exactly one.
    let interval = frame_pipeline::scheduler::frame_interval_of(60);
    assert_eq!(interval, 16);
    let mut p = Pipeline::new(1, 3, 3, interval);
    p.deliver(0, tagged(0));
    p.deliver(0, tagged(1));
    p.deliver(0, tagged(2));
    assert!(matches!(p.tick(10), TickResult::NotDue));
    assert_eq!(tag_of(p.tick(17)), Some(0));
    // Immediately after a tick nothing more is emitted, buffered or not.
    assert!(matches!(p.tick(18), TickResult::NotDue));
    assert!(matches!(p.tick(33), TickResult::NotDue));
    assert_eq!(p.sched.cursor, 1);
    assert_eq!(tag_of(p.tick(34)), Some(1));
    assert_eq!(p.sched.cursor, 2);
}

#[test]
fn pipeline_starts_empty_and_aligned() {
    let p = Pipeline::new(3, 30, 5, 16);
    assert_eq!(p.lane_count(), 3);
    assert_eq!(p.sched.cursor, 0);
    for w in 0..3usize {
        assert_eq!(p.lanes[w].queue.len(), 0);
        assert_eq!(p.lanes[w].next_out, w as u64);
        assert!(!p.lanes[w].stopped);
    }
}
