use frame_pipeline::scheduler::{
    effective_lane_count, effective_preload, frame_interval_of, PopOutcome, Scheduler,
};

#[test]
fn frame_interval_for_sixty_fps() {
    assert_eq!(frame_interval_of(60), 16);
    assert_eq!(frame_interval_of(1), 1000);
    assert_eq!(frame_interval_of(30), 33);
}

#[test]
fn preload_defaults_to_framerate() {
    assert_eq!(effective_preload(0, 60), 60);
    assert_eq!(effective_preload(24, 60), 24);
}

#[test]
fn lane_count_defaults_to_available_parallelism() {
    assert_eq!(effective_lane_count(0, 8), 8);
    assert_eq!(effective_lane_count(3, 8), 3);
}

#[test]
fn tick_is_due_only_after_a_full_interval() {
    let s = Scheduler::new(2, 10, 16);
    assert!(!s.due(0));
    assert!(!s.due(16));
    assert!(s.due(17));
}

#[test]
fn cursor_advances_only_on_a_popped_frame() {
    let mut s = Scheduler::new(2, 10, 16);
    s.on_tick(17, PopOutcome::Empty);
    assert_eq!(s.cursor, 0);
    assert!(!s.halted);
    s.on_tick(34, PopOutcome::Popped);
    assert_eq!(s.cursor, 1);
    assert!(!s.halted);
}

#[test]
fn scheduler_routes_by_the_partition() {
    let mut s = Scheduler::new(3, 9, 16);
    let mut lanes_seen: Vec<u64> = Vec::new();
    let mut now: u64 = 0;
    while !s.finished() {
        now += 17;
        lanes_seen.push(s.target_lane());
        s.on_tick(now, PopOutcome::Popped);
    }
    assert_eq!(lanes_seen, vec![0, 1, 2, 0, 1, 2, 0, 1, 2]);
}

#[test]
fn disconnected_producer_halts_playback() {
    let mut s = Scheduler::new(2, 10, 16);
    s.on_tick(17, PopOutcome::Disconnected);
    assert!(s.halted);
    assert_eq!(s.cursor, 0);
}

#[test]
fn tick_baseline_resets_to_observed_time() {
    // Phase-reset pacing: the next tick is measured from the time the
    // last tick was taken, not from an accumulating schedule.
    let mut s = Scheduler::new(1, 10, 16);
    s.on_tick(100, PopOutcome::Popped);
    assert_eq!(s.last_tick, 100);
    assert!(!s.due(116));
    assert!(s.due(117));
}
