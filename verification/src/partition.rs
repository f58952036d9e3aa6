//! Static strided partitioning of frame indices across lanes.
//!
//! Every frame index is owned by exactly one lane: the lane whose id equals
//! the index modulo the lane count. The same mapping is used both when
//! assigning work to loader lanes and when the scheduler selects the lane
//! that must hold the next frame, so the two sides can never disagree.

use vstd::prelude::*;
use vstd::arithmetic::div_mod::{lemma_mod_bound, lemma_fundamental_div_mod};

verus! {

/// The lane that owns frame index `i` when `n` lanes are configured.
pub open spec fn spec_lane_of(i: int, n: int) -> int {
    i % n
}

/// The set of frame indices owned by `lane` out of `total` frames.
pub open spec fn owned_indices(lane: int, n: int, total: int) -> Set<int> {
    Set::new(|i: int| 0 <= i < total && spec_lane_of(i, n) == lane)
}

/// The lane that owns frame index `index` among `lane_count` lanes.
pub fn lane_of(index: u64, lane_count: u64) -> (lane: u64)
    requires
        lane_count >= 1,
    ensures
        lane == spec_lane_of(index as int, lane_count as int),
        lane < lane_count,
{
    proof {
        lemma_mod_bound(index as int, lane_count as int);
    }
    index % lane_count
}

/// Distinct lanes own disjoint index sets.
pub proof fn lemma_lanes_disjoint(lane_a: int, lane_b: int, n: int, total: int)
    requires
        n >= 1,
        lane_a != lane_b,
    ensures
        owned_indices(lane_a, n, total).disjoint(owned_indices(lane_b, n, total)),
{
    assert forall|i: int|
        owned_indices(lane_a, n, total).contains(i) implies !owned_indices(
        lane_b,
        n,
        total,
    ).contains(i) by {
        assert(spec_lane_of(i, n) == lane_a);
    }
}

/// Every frame index in `[0, total)` is owned by some lane in `[0, n)`:
/// together with disjointness, the lanes partition the frame sequence
/// exactly, with no overlap and no gap.
pub proof fn lemma_lanes_cover(n: int, total: int, i: int)
    requires
        n >= 1,
        0 <= i < total,
    ensures
        0 <= spec_lane_of(i, n) < n,
        owned_indices(spec_lane_of(i, n), n, total).contains(i),
{
    lemma_mod_bound(i, n);
}

/// The union of all lanes' index sets is exactly `[0, total)`: an index
/// belongs to some lane in `[0, n)` if and only if it is a frame index.
pub proof fn lemma_lanes_union(n: int, total: int, i: int)
    requires
        n >= 1,
    ensures
        (0 <= i < total) <==> exists|w: int|
            0 <= w < n && #[trigger] owned_indices(w, n, total).contains(i),
{
    if 0 <= i < total {
        lemma_lanes_cover(n, total, i);
        assert(0 <= spec_lane_of(i, n) < n && owned_indices(spec_lane_of(i, n), n, total).contains(
            i,
        ));
    }
}

/// A lane owns only indices in `[0, total)`.
pub proof fn lemma_owned_in_range(lane: int, n: int, total: int, i: int)
    requires
        owned_indices(lane, n, total).contains(i),
    ensures
        0 <= i < total,
{
}

/// Within a lane, ownership repeats with stride `n`: after an owned index,
/// the next owned index is exactly `n` further on.
pub proof fn lemma_stride(i: int, n: int)
    requires
        n >= 1,
        0 <= i,
    ensures
        spec_lane_of(i + n, n) == spec_lane_of(i, n),
        forall|j: int| i < j < i + n ==> spec_lane_of(j, n) != spec_lane_of(i, n),
{
    lemma_mod_bound(i, n);
    lemma_fundamental_div_mod(i, n);
    assert(i + n == n * (i / n + 1) + (i % n)) by (nonlinear_arith)
        requires i == n * (i / n) + (i % n);
    lemma_mod_of_multiple_plus_remainder(i + n, i / n + 1, i % n, n);
    assert forall|j: int| i < j < i + n implies spec_lane_of(j, n) != spec_lane_of(i, n) by {
        lemma_mod_bound(j, n);
        lemma_fundamental_div_mod(j, n);
        if j % n == i % n {
            assert(j - i == n * (j / n - i / n)) by (nonlinear_arith)
                requires
                    i == n * (i / n) + (i % n),
                    j == n * (j / n) + (j % n),
                    j % n == i % n;
            assert(false) by (nonlinear_arith)
                requires
                    j - i == n * (j / n - i / n),
                    0 < j - i < n;
        }
    }
}

/// A quotient-remainder pair determines the remainder of the product form.
proof fn lemma_mod_of_multiple_plus_remainder(x: int, q: int, r: int, n: int)
    requires
        n >= 1,
        0 <= r < n,
        x == n * q + r,
    ensures
        x % n == r,
{
    lemma_fundamental_div_mod(x, n);
    lemma_mod_bound(x, n);
    assert(x % n == r) by (nonlinear_arith)
        requires
            x == n * q + r,
            x == n * (x / n) + (x % n),
            0 <= r < n,
            0 <= x % n < n;
}

} // verus!
