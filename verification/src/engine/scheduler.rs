use rand::Rng;
use crate::infra::clock::{duration_from_millis, millis_duration};
use std::time::Duration;
use vstd::prelude::*;

verus! {

// ── Outside calls ─────────────────────────────────────────────────────────────

/// Calls `rand::thread_rng().gen_range(low..=high)`, which panics on an empty
/// range and otherwise returns a random value of the inclusive range.
#[verifier::external_body]
fn random_in_range(low: i128, high: i128) -> (r: i128)
    requires
        low <= high,
    ensures
        low <= r <= high,
{
    rand::thread_rng().gen_range(low..=high)
}

// ── Intervals ─────────────────────────────────────────────────────────────────

/// Convert clicks-per-second to interval in milliseconds.
pub fn cps_to_interval_ms(cps: u32) -> (ms: u64)
    requires
        cps > 0,
    ensures
        ms == 1000int / (cps as int),
{
    1000 / cps as u64
}

/// The largest jitter offset, in hundredths of a millisecond: the interval
/// times the jitter percentage.
pub open spec fn max_offset_hundredths(interval_ms: u64, jitter_percent: u32) -> int {
    interval_ms as int * jitter_percent as int
}

/// The bound of the random offset handed out for an interval: the interval
/// times the jitter percentage, in hundredths of a millisecond.
pub fn jitter_offset_bound(interval_ms: u64, jitter_percent: u32) -> (b: i128)
    ensures
        b == max_offset_hundredths(interval_ms, jitter_percent),
        b >= 0,
{
    proof {
        assert(0 <= interval_ms as int * jitter_percent as int <= u64::MAX as int * u32::MAX as int)
            by (nonlinear_arith);
    }
    interval_ms as i128 * jitter_percent as i128
}

/// The interval moved by `offset_hundredths` hundredths of a millisecond,
/// rounded to the nearest millisecond (halves round up), at least 1 and at
/// most `u64::MAX`.
pub open spec fn jittered_ms(interval_ms: u64, offset_hundredths: int) -> int {
    let rounded = (interval_ms as int * 100 + offset_hundredths + 50) / 100;
    if rounded < 1 {
        1
    } else if rounded > u64::MAX {
        u64::MAX as int
    } else {
        rounded
    }
}

/// The interval moved by a given offset; see `jittered_ms`.
pub fn jitter_with_offset(interval_ms: u64, jitter_percent: u32, offset_hundredths: i128) -> (r:
    u64)
    requires
        -max_offset_hundredths(interval_ms, jitter_percent) <= offset_hundredths
            <= max_offset_hundredths(interval_ms, jitter_percent),
    ensures
        r == jittered_ms(interval_ms, offset_hundredths as int),
{
    proof {
        assert(interval_ms as int * jitter_percent as int <= u64::MAX as int * u32::MAX as int)
            by (nonlinear_arith);
    }
    let shifted: i128 = interval_ms as i128 * 100 + offset_hundredths + 50;
    if shifted < 100 {
        proof {
            assert(shifted / 100 < 1) by (nonlinear_arith)
                requires
                    shifted < 100,
            ;
        }
        1
    } else {
        let rounded: i128 = shifted / 100;
        if rounded > u64::MAX as i128 {
            u64::MAX
        } else {
            rounded as u64
        }
    }
}

/// Apply jitter to an interval: the interval moved by a random amount of at
/// most `jitter_percent` percent either way, rounded to whole milliseconds and
/// at least 1. A jitter of 0 returns the exact interval.
pub fn apply_jitter(interval_ms: u64, jitter_percent: u32) -> (r: u64)
    ensures
        jitter_percent == 0 ==> r == interval_ms,
        jitter_percent != 0 ==> exists|offset: int|
            -max_offset_hundredths(interval_ms, jitter_percent) <= offset
                <= max_offset_hundredths(interval_ms, jitter_percent) && r == #[trigger] jittered_ms(
                interval_ms,
                offset,
            ),
{
    if jitter_percent == 0 {
        return interval_ms;
    }
    let range = jitter_offset_bound(interval_ms, jitter_percent);
    let offset = random_in_range(-range, range);
    let r = jitter_with_offset(interval_ms, jitter_percent, offset);
    assert(r == jittered_ms(interval_ms, offset as int));
    r
}

/// Calculate the sleep duration for a single tick: the interval of `cps`,
/// jittered by `apply_jitter`.
pub fn tick_duration(cps: u32, jitter_percent: u32) -> (d: Duration)
    requires
        cps > 0,
    ensures
        jitter_percent == 0 ==> d == millis_duration((1000int / (cps as int)) as u64),
        jitter_percent != 0 ==> exists|offset: int|
            -max_offset_hundredths((1000int / (cps as int)) as u64, jitter_percent) <= offset
                <= max_offset_hundredths((1000int / (cps as int)) as u64, jitter_percent) && d
                == millis_duration(#[trigger] jittered_ms((1000int / (cps as int)) as u64, offset) as u64),
{
    let base_ms = cps_to_interval_ms(cps);
    let actual_ms = apply_jitter(base_ms, jitter_percent);
    let d = duration_from_millis(actual_ms);
    proof {
        assert(base_ms == (1000int / (cps as int)) as u64);
        if jitter_percent != 0 {
            let o = choose|o: int|
                -max_offset_hundredths(base_ms, jitter_percent) <= o <= max_offset_hundredths(
                    base_ms,
                    jitter_percent,
                ) && actual_ms == #[trigger] jittered_ms(base_ms, o);
            assert(d == millis_duration(jittered_ms(base_ms, o) as u64));
        }
    }
    d
}

// ── Laws ──────────────────────────────────────────────────────────────────────

/// Every valid click rate gives a positive interval.
pub proof fn lemma_interval_positive(cps: u32)
    requires
        1 <= cps <= 50,
    ensures
        1000int / (cps as int) > 0,
{
    assert(1000int / (cps as int) >= 20) by (nonlinear_arith)
        requires
            1 <= cps <= 50,
    ;
}

/// A higher click rate never gives a longer interval.
pub proof fn lemma_interval_antitone(a: u32, b: u32)
    requires
        0 < a <= b,
    ensures
        1000int / (a as int) >= 1000int / (b as int),
{
    assert(1000int / (a as int) >= 1000int / (b as int)) by (nonlinear_arith)
        requires
            0 < a <= b,
    ;
}

/// Every jittered interval is at least 1 ms and lies within half a
/// millisecond of the interval moved by the largest allowed offset either way.
pub proof fn lemma_jitter_bounds(interval_ms: u64, jitter_percent: u32, offset: int)
    requires
        -max_offset_hundredths(interval_ms, jitter_percent) <= offset <= max_offset_hundredths(
            interval_ms,
            jitter_percent,
        ),
    ensures
        jittered_ms(interval_ms, offset) >= 1,
        100 * jittered_ms(interval_ms, offset) <= 100 * interval_ms + max_offset_hundredths(
            interval_ms,
            jitter_percent,
        ) + 50 || jittered_ms(interval_ms, offset) == 1,
        100 * jittered_ms(interval_ms, offset) >= 100 * interval_ms - max_offset_hundredths(
            interval_ms,
            jitter_percent,
        ) - 50,
{
    let v = interval_ms as int * 100 + offset + 50;
    let q = v / 100;
    assert(100 * q <= v < 100 * q + 100) by (nonlinear_arith)
        requires
            q == v / 100,
    ;
}

/// When the largest offset is a whole number of milliseconds `m` and the
/// jitter is at most 100%, every jittered interval lies in
/// `[interval - m, interval + m]`.
pub proof fn lemma_jitter_whole_bounds(interval_ms: u64, jitter_percent: u32, offset: int)
    requires
        interval_ms >= 1,
        jitter_percent <= 100,
        max_offset_hundredths(interval_ms, jitter_percent) % 100 == 0,
        -max_offset_hundredths(interval_ms, jitter_percent) <= offset <= max_offset_hundredths(
            interval_ms,
            jitter_percent,
        ),
    ensures
        interval_ms - max_offset_hundredths(interval_ms, jitter_percent) / 100 <= jittered_ms(
            interval_ms,
            offset,
        ) <= interval_ms + max_offset_hundredths(interval_ms, jitter_percent) / 100,
{
    let m = max_offset_hundredths(interval_ms, jitter_percent);
    let k = m / 100;
    assert(m == 100 * k) by (nonlinear_arith)
        requires
            m % 100 == 0,
            k == m / 100,
    ;
    assert(m <= 100 * interval_ms) by (nonlinear_arith)
        requires
            m == interval_ms as int * jitter_percent as int,
            jitter_percent <= 100,
            interval_ms >= 1,
    ;
    let v = interval_ms as int * 100 + offset + 50;
    let q = v / 100;
    assert(100 * q <= v < 100 * q + 100) by (nonlinear_arith)
        requires
            q == v / 100,
    ;
}

} // verus!
