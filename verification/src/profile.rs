//! Index arithmetic over a terrain profile. A profile holds, in order, the
//! number of intervals `np`, the interval length, and the `np + 1`
//! elevations, so elevation `i` stands at position `i + 2`.
use vstd::prelude::*;

verus! {

/// The length of the buffer that holds a resampled profile for the
/// terrain irregularity computation: two header values and at most 245
/// samples.
pub const SAMPLE_BUFFER_LEN: usize = 247;

/// Integer division by 10 that truncates toward zero, as a conversion of
/// `0.1 * n` to an integer does.
pub open spec fn trunc_div10(n: int) -> int {
    if n >= 0 {
        n / 10
    } else {
        -((-n) / 10)
    }
}

/// `x` limited to the range from `lo` to `hi`.
pub open spec fn clamp(x: int, lo: int, hi: int) -> int {
    if x < lo {
        lo
    } else if x > hi {
        hi
    } else {
        x
    }
}

/// The elevations that the system height averages over: those from a
/// tenth of the intervals in from either end, the first and last index
/// included.
pub fn averaging_window(np: i32) -> (w: (i32, i32))
    ensures
        w.0 == trunc_div10(np as int),
        w.1 == np - w.0,
        np >= 0 ==> 0 <= w.0 && w.0 * 10 <= np < w.0 * 10 + 10,
        np < 0 ==> w.0 <= 0 && w.0 * 10 - 10 < np <= w.0 * 10,
{
    let n = np as i64;
    let p10: i64 = if n >= 0 {
        n / 10
    } else {
        -((-n) / 10)
    };
    let p10 = p10 as i32;
    (p10, np - p10)
}

/// The resampling plan of the terrain irregularity computation, from the
/// raw decile count: the decile count `p10` limited to 4 to 25, the number
/// of samples `10 * p10 - 5`, and the index `n - p10` of the lower decile
/// in the descending order of the samples.
pub fn delta_h_sample_plan(raw_p10: i32) -> (plan: (i32, i32, i32))
    ensures
        plan.0 == clamp(raw_p10 as int, 4, 25),
        plan.1 == 10 * plan.0 - 5,
        plan.2 == plan.1 - plan.0,
        4 <= raw_p10 <= 25 ==> plan.0 == raw_p10,
        raw_p10 < 4 ==> plan.0 == 4,
        raw_p10 > 25 ==> plan.0 == 25,
{
    let mut p10 = raw_p10;
    if p10 < 4 {
        p10 = 4;
    }
    if p10 > 25 {
        p10 = 25;
    }
    let n = 10 * p10 - 5;
    (p10, n, n - p10)
}

/// The range of a least-squares fit after widening: a range that holds
/// fewer than two elevations gains one elevation at either end, within the
/// profile; any other range stays as it is.
pub open spec fn widened_fit_window(i_start: int, i_end: int, np: int) -> (int, int) {
    if i_end <= i_start {
        (if i_start - 1 > 0 {
            i_start - 1
        } else {
            0
        }, if i_end + 1 < np {
            i_end + 1
        } else {
            np
        })
    } else {
        (i_start, i_end)
    }
}

/// Widens the range of a least-squares fit; see [`widened_fit_window`].
pub fn widen_fit_window(i_start: i32, i_end: i32, np: i32) -> (w: (i32, i32))
    ensures
        (w.0 as int, w.1 as int) == widened_fit_window(i_start as int, i_end as int, np as int),
        i_start < i_end ==> w.0 == i_start && w.1 == i_end,
        i_end <= i_start && i_start >= 1 ==> w.0 == i_start - 1,
        i_end <= i_start && i_start < 1 ==> w.0 == 0,
        i_end <= i_start && i_end + 1 <= np ==> w.1 == i_end + 1,
        i_end <= i_start && i_end + 1 > np ==> w.1 == np,
{
    if i_end <= i_start {
        let s = if i_start > 1 {
            i_start - 1
        } else {
            0
        };
        let e = if (i_end as i64) + 1 < np as i64 {
            i_end + 1
        } else {
            np
        };
        (s, e)
    } else {
        (i_start, i_end)
    }
}

/// For a profile of `np >= 0` intervals the averaging window is never
/// empty and lies within the profile: every index in it addresses an
/// elevation.
pub proof fn lemma_averaging_window_in_profile(np: i32)
    requires
        np >= 0,
    ensures
        ({
            let p10 = trunc_div10(np as int);
            let end = np - p10;
            &&& 0 <= p10 <= end <= np
            &&& end - p10 + 1 >= 1
            &&& end - p10 + 1 == np - 2 * p10 + 1
        }),
{
}

/// The resampled profile fits its buffer, and both deciles address a
/// sample, the upper one before the lower one.
pub proof fn lemma_delta_h_plan_in_bounds(raw_p10: i32)
    ensures
        ({
            let p10 = clamp(raw_p10 as int, 4, 25);
            let n = 10 * p10 - 5;
            let p90 = n - p10;
            &&& 4 <= p10 <= 25
            &&& n + 2 <= SAMPLE_BUFFER_LEN
            &&& 0 <= p10 - 1 < p90 < n
        }),
{
}

/// Widening keeps a fit range that lies within the profile within it, and
/// never narrows it.
pub proof fn lemma_widen_fit_window_in_profile(i_start: int, i_end: int, np: int)
    requires
        0 <= i_start,
        i_end <= np,
    ensures
        ({
            let (s, e) = widened_fit_window(i_start, i_end, np);
            &&& 0 <= s <= i_start
            &&& i_end <= e <= np
        }),
{
}

/// The window starts at the tenth of the interval count truncated toward
/// zero: for `np >= 0` the largest multiple of 10 not above `np`, divided
/// by 10; for `np < 0` the smallest not below it; and it ends as far in
/// from `np` as it starts from 0.
pub proof fn lemma_averaging_window_is_a_tenth(np: int)
    ensures
        ({
            let p10 = trunc_div10(np);
            &&& np >= 0 ==> 0 <= p10 && p10 * 10 <= np < p10 * 10 + 10
            &&& np < 0 ==> p10 <= 0 && p10 * 10 - 10 < np <= p10 * 10
        }),
{
}

/// The decile count is the raw count when it lies within 4 to 25, 4 below
/// that range and 25 above it.
pub proof fn lemma_delta_h_plan_clamps(raw_p10: int)
    ensures
        4 <= raw_p10 <= 25 ==> clamp(raw_p10, 4, 25) == raw_p10,
        raw_p10 < 4 ==> clamp(raw_p10, 4, 25) == 4,
        raw_p10 > 25 ==> clamp(raw_p10, 4, 25) == 25,
{
}

/// A fit range that holds at least two elevations is kept as it is; a
/// shorter one starts one elevation earlier (not before 0) and ends one
/// elevation later (not after `np`).
pub proof fn lemma_widen_fit_window_only_short_ranges(i_start: int, i_end: int, np: int)
    ensures
        ({
            let (s, e) = widened_fit_window(i_start, i_end, np);
            &&& i_start < i_end ==> s == i_start && e == i_end
            &&& i_end <= i_start && i_start >= 1 ==> s == i_start - 1
            &&& i_end <= i_start && i_start < 1 ==> s == 0
            &&& i_end <= i_start && i_end + 1 <= np ==> e == i_end + 1
            &&& i_end <= i_start && i_end + 1 > np ==> e == np
        }),
{
}

} // verus!
