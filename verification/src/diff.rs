//! Pairwise absolute difference of byte buffers, the statistics of one
//! comparison, and the threshold policy that turns them into a verdict.

use vstd::prelude::*;

verus! {

/// Mathematical absolute difference of two bytes.
pub open spec fn absdiff_spec(a: u8, b: u8) -> u8 {
    if a >= b {
        (a - b) as u8
    } else {
        (b - a) as u8
    }
}

/// Number of positions at which two equal-length buffers differ.
pub open spec fn count_diffs(a: Seq<u8>, b: Seq<u8>) -> nat
    recommends
        a.len() == b.len(),
    decreases a.len(),
{
    if a.len() == 0 {
        0
    } else {
        count_diffs(a.drop_last(), b.drop_last()) + if a.last() != b.last() {
            1nat
        } else {
            0nat
        }
    }
}

/// Sum of the absolute differences of two equal-length buffers.
pub open spec fn sum_diffs(a: Seq<u8>, b: Seq<u8>) -> nat
    recommends
        a.len() == b.len(),
    decreases a.len(),
{
    if a.len() == 0 {
        0
    } else {
        sum_diffs(a.drop_last(), b.drop_last()) + absdiff_spec(a.last(), b.last()) as nat
    }
}

/// Aggregate statistics of one comparison: how many byte positions differ
/// and the sum of all absolute differences.
#[derive(Clone, Copy, Debug, PartialEq, Eq, Structural)]
pub struct DiffStat {
    pub pix_cnt_diff: usize,
    pub sum_diff: usize,
}

/// The decision rule of the threshold policy: a criterion whose threshold is
/// zero is disabled, and a change is significant when any enabled criterion
/// is strictly exceeded.
pub open spec fn threshold_met(cnt: int, sum: int, cnt_thr: usize, sum_thr: usize) -> bool {
    (cnt_thr != 0 && cnt > cnt_thr) || (sum_thr != 0 && sum > sum_thr)
}

/// Absolute difference of two bytes, computed without underflow, together
/// with a flag that is 1 exactly when the bytes differ.
pub fn absdiff(a: u8, b: u8) -> (r: (u8, u8))
    ensures
        r.0 == absdiff_spec(a, b),
        r.1 == (if a != b { 1u8 } else { 0u8 }),
{
    if a == b {
        (0u8, 0)
    } else if a > b {
        (a - b, 1)
    } else {
        (b - a, 1)
    }
}

/// The absolute difference does not depend on the order of its arguments.
pub proof fn lemma_absdiff_symmetric(a: u8, b: u8)
    ensures
        absdiff_spec(a, b) == absdiff_spec(b, a),
{
}

/// The diff engine: writes the absolute difference of `last` and `current`
/// into `delta_out` position by position, rolls the baseline forward by
/// overwriting `last` with `current`, and returns the aggregate statistics
/// of the comparison.
pub fn diff_and_update(last: &mut Vec<u8>, current: &Vec<u8>, delta_out: &mut Vec<u8>) -> (stat:
    DiffStat)
    requires
        old(last)@.len() == current@.len(),
        old(delta_out)@.len() == current@.len(),
        current@.len() * 255 <= usize::MAX,
    ensures
        final(last)@ == current@,
        final(delta_out)@.len() == current@.len(),
        forall|i: int|
            0 <= i < current@.len() ==> final(delta_out)@[i] == absdiff_spec(
                old(last)@[i],
                current@[i],
            ),
        stat.pix_cnt_diff == count_diffs(old(last)@, current@),
        stat.sum_diff == sum_diffs(old(last)@, current@),
{
    let n = current.len();
    let mut cnt: usize = 0;
    let mut sumdiff: usize = 0;
    let mut i: usize = 0;
    while i < n
        invariant
            n == current@.len(),
            n * 255 <= usize::MAX,
            i <= n,
            old(last)@.len() == n,
            last@.len() == n,
            delta_out@.len() == n,
            cnt <= i,
            sumdiff <= 255 * i,
            forall|j: int| 0 <= j < i ==> last@[j] == current@[j],
            forall|j: int| i <= j < n ==> last@[j] == old(last)@[j],
            forall|j: int|
                0 <= j < i ==> delta_out@[j] == absdiff_spec(old(last)@[j], current@[j]),
            cnt == count_diffs(
                old(last)@.subrange(0, i as int),
                current@.subrange(0, i as int),
            ),
            sumdiff == sum_diffs(old(last)@.subrange(0, i as int), current@.subrange(0, i as int)),
        decreases n - i,
    {
        let (d, c) = absdiff(last[i], current[i]);
        delta_out.set(i, d);
        last.set(i, current[i]);
        cnt = cnt + c as usize;
        sumdiff = sumdiff + d as usize;
        proof {
            assert(old(last)@.subrange(0, i + 1).drop_last() =~= old(last)@.subrange(0, i as int));
            assert(current@.subrange(0, i + 1).drop_last() =~= current@.subrange(0, i as int));
        }
        i = i + 1;
    }
    proof {
        assert(old(last)@.subrange(0, n as int) =~= old(last)@);
        assert(current@.subrange(0, n as int) =~= current@);
        assert(last@ =~= current@);
    }
    DiffStat { pix_cnt_diff: cnt, sum_diff: sumdiff }
}

/// The threshold policy: decides whether one comparison's statistics amount
/// to a significant change under the caller's thresholds.
pub fn is_significant(stat: DiffStat, pixel_count_threshold: usize, sum_threshold: usize) -> (r:
    bool)
    ensures
        r == threshold_met(
            stat.pix_cnt_diff as int,
            stat.sum_diff as int,
            pixel_count_threshold,
            sum_threshold,
        ),
{
    (pixel_count_threshold != 0 && stat.pix_cnt_diff > pixel_count_threshold) || (sum_threshold
        != 0 && stat.sum_diff > sum_threshold)
}

/// With both thresholds zero, every criterion is disabled and the policy
/// never reports a significant change.
pub proof fn lemma_zero_thresholds_never_significant(cnt: int, sum: int)
    ensures
        !threshold_met(cnt, sum, 0, 0),
{
}

/// With only the pixel-count criterion enabled, the verdict is true exactly
/// when the count exceeds its threshold, independent of the sum.
pub proof fn lemma_count_threshold_only(cnt: int, sum: int, cnt_thr: usize)
    requires
        cnt_thr != 0,
    ensures
        threshold_met(cnt, sum, cnt_thr, 0) == (cnt > cnt_thr),
{
}

/// Comparing a buffer against itself yields zero statistics, a delta of all
/// zeros, and a negative verdict whatever the thresholds are.
pub proof fn lemma_unchanged_frame(f: Seq<u8>, cnt_thr: usize, sum_thr: usize)
    ensures
        count_diffs(f, f) == 0,
        sum_diffs(f, f) == 0,
        forall|i: int| 0 <= i < f.len() ==> absdiff_spec(f[i], f[i]) == 0,
        !threshold_met(0, 0, cnt_thr, sum_thr),
    decreases f.len(),
{
    if f.len() > 0 {
        lemma_unchanged_frame(f.drop_last(), cnt_thr, sum_thr);
    }
}

} // verus!
