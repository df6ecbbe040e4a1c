//! Delta and rate primitives shared by the CPU, disk and network samplers.
//!
//! A kernel counter is read twice; the observed difference divided by the
//! elapsed time gives a rate, and a part/whole pair of deltas gives a
//! utilisation ratio that is clamped to its nominal range.

use vstd::prelude::*;

verus! {

/// Difference of two reads of a monotonically increasing `u64` counter.
/// When the later read is smaller, the counter wrapped at `u64::MAX`.
pub open spec fn spec_counter_delta(earlier: u64, later: u64) -> int {
    if later >= earlier {
        later - earlier
    } else {
        (u64::MAX - earlier) + later
    }
}

/// Rate of a counter over an interval: the wrapped delta divided by the
/// elapsed time, and zero on a degenerate (empty) interval.
pub open spec fn spec_counter_rate(earlier: u64, later: u64, elapsed: u64) -> int {
    if elapsed == 0 {
        0
    } else {
        spec_counter_delta(earlier, later) / elapsed as int
    }
}

/// Percentage `part / whole * 100`, rounded down and clamped to `[0, 100]`;
/// zero when the denominator is zero.
pub open spec fn spec_ratio_percent(part: u64, whole: u64) -> int {
    if whole == 0 {
        0
    } else if part as int * 100 / whole as int > 100 {
        100
    } else {
        part as int * 100 / whole as int
    }
}

/// Hundredths of a percent `part / whole * 10000`, rounded down and clamped
/// to `[0, 10000]`; zero when the denominator is zero.
pub open spec fn spec_ratio_permyriad(part: u64, whole: u64) -> int {
    if whole == 0 {
        0
    } else if part as int * 10000 / whole as int > 10000 {
        10000
    } else {
        part as int * 10000 / whole as int
    }
}

/// Parts per billion `part / whole * 1_000_000_000`, rounded down and
/// clamped to one billion; zero when the denominator is zero.
pub open spec fn spec_ratio_per_billion(part: u64, whole: u64) -> int {
    if whole == 0 {
        0
    } else if part as int * 1_000_000_000 / whole as int > 1_000_000_000 {
        1_000_000_000
    } else {
        part as int * 1_000_000_000 / whole as int
    }
}

/// Wrapped difference of two reads of a monotonic counter.
pub fn counter_delta(earlier: u64, later: u64) -> (r: u64)
    ensures
        r == spec_counter_delta(earlier, later),
{
    if later >= earlier {
        later - earlier
    } else {
        (u64::MAX - earlier) + later
    }
}

/// Rate of a monotonic counter over `elapsed` time units; zero when no time
/// elapsed, so a first sample never divides by zero.
pub fn counter_rate(earlier: u64, later: u64, elapsed: u64) -> (r: u64)
    ensures
        r == spec_counter_rate(earlier, later, elapsed),
{
    if elapsed == 0 {
        0
    } else {
        counter_delta(earlier, later) / elapsed
    }
}

/// Percentage of `part` in `whole`, clamped to `[0, 100]`.
pub fn ratio_percent(part: u64, whole: u64) -> (r: u64)
    ensures
        r == spec_ratio_percent(part, whole),
        r <= 100,
{
    if whole == 0 {
        0
    } else {
        let wide: u128 = (part as u128) * 100 / (whole as u128);
        if wide > 100 {
            100
        } else {
            wide as u64
        }
    }
}

/// Hundredths of a percent of `part` in `whole`, clamped to `[0, 10000]`.
pub fn ratio_permyriad(part: u64, whole: u64) -> (r: u64)
    ensures
        r == spec_ratio_permyriad(part, whole),
        r <= 10000,
{
    if whole == 0 {
        0
    } else {
        let wide: u128 = (part as u128) * 10000 / (whole as u128);
        if wide > 10000 {
            10000
        } else {
            wide as u64
        }
    }
}

/// Parts per billion of `part` in `whole`, clamped to one billion.
pub fn ratio_per_billion(part: u64, whole: u64) -> (r: u64)
    ensures
        r == spec_ratio_per_billion(part, whole),
        r <= 1_000_000_000,
{
    if whole == 0 {
        0
    } else {
        let wide: u128 = (part as u128) * 1_000_000_000 / (whole as u128);
        if wide > 1_000_000_000 {
            1_000_000_000
        } else {
            wide as u64
        }
    }
}

/// For samples `a <= b` of a counter and a positive interval, the rate is
/// exactly `(b - a) / elapsed`; when the counter wrapped (`b < a`) it is
/// exactly `((u64::MAX - a) + b) / elapsed`.
pub proof fn lemma_rate_exact(a: u64, b: u64, elapsed: u64)
    requires
        elapsed > 0,
    ensures
        b >= a ==> spec_counter_rate(a, b, elapsed) == (b - a) / elapsed as int,
        b < a ==> spec_counter_rate(a, b, elapsed) == ((u64::MAX - a) + b) / elapsed as int,
{
}

/// Every utilisation ratio is within its nominal closed range, however the
/// raw division would have come out.
pub proof fn lemma_ratio_bounded(part: u64, whole: u64)
    ensures
        0 <= spec_ratio_percent(part, whole) <= 100,
        0 <= spec_ratio_permyriad(part, whole) <= 10000,
        0 <= spec_ratio_per_billion(part, whole) <= 1_000_000_000,
{
    if whole != 0 {
        vstd::arithmetic::div_mod::lemma_div_is_ordered_by_denominator(
            part as int * 100,
            1,
            whole as int,
        );
        assert(part as int * 100 / whole as int >= 0) by {
            vstd::arithmetic::div_mod::lemma_div_pos_is_pos(part as int * 100, whole as int);
        }
        assert(part as int * 10000 / whole as int >= 0) by {
            vstd::arithmetic::div_mod::lemma_div_pos_is_pos(part as int * 10000, whole as int);
        }
        assert(part as int * 1_000_000_000 / whole as int >= 0) by {
            vstd::arithmetic::div_mod::lemma_div_pos_is_pos(
                part as int * 1_000_000_000,
                whole as int,
            );
        }
    }
}


/// Millionths of `part / whole`, rounded down, saturating at the largest
/// representable value; zero when the denominator is zero. Unlike the
/// clamped ratios this one may exceed one million: a cgroup spanning
/// several processors accumulates more than one second of CPU per second.
pub open spec fn spec_frac_permillion(part: u64, whole: u64) -> int {
    if whole == 0 {
        0
    } else if part as int * 1_000_000 / whole as int > u64::MAX {
        u64::MAX as int
    } else {
        part as int * 1_000_000 / whole as int
    }
}

/// Millionths of `part / whole`, saturating.
pub fn frac_permillion(part: u64, whole: u64) -> (r: u64)
    ensures
        r == spec_frac_permillion(part, whole),
{
    if whole == 0 {
        0
    } else {
        let wide: u128 = (part as u128) * 1_000_000 / (whole as u128);
        if wide > u64::MAX as u128 {
            u64::MAX
        } else {
            wide as u64
        }
    }
}

} // verus!
