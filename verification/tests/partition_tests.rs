use frame_pipeline::partition::lane_of;

#[test]
fn partition_assigns_every_index_to_exactly_one_lane() {
    let lane_count: u64 = 3;
    let total: u64 = 10;
    let mut owned: Vec<Vec<u64>> = vec![Vec::new(), Vec::new(), Vec::new()];
    for i in 0..total {
        let lane = lane_of(i, lane_count);
        assert!(lane < lane_count);
        owned[lane as usize].push(i);
    }
    assert_eq!(owned[0], vec![0, 3, 6, 9]);
    assert_eq!(owned[1], vec![1, 4, 7]);
    assert_eq!(owned[2], vec![2, 5, 8]);
    // Pairwise disjoint and together exactly [0, total).
    let mut all: Vec<u64> = Vec::new();
    for lane in &owned {
        for &i in lane {
            assert!(!all.contains(&i));
            all.push(i);
        }
    }
    all.sort();
    assert_eq!(all, (0..total).collect::<Vec<u64>>());
}

#[test]
fn partition_single_lane_owns_everything() {
    for i in 0..20u64 {
        assert_eq!(lane_of(i, 1), 0);
    }
}

#[test]
fn partition_is_stride_periodic() {
    let n: u64 = 4;
    for i in 0..40u64 {
        assert_eq!(lane_of(i, n), lane_of(i + n, n));
    }
}
