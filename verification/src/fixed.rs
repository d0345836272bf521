//! Fixed-point quantities in millionths.

use vstd::prelude::*;

verus! {

/// One whole: a weight of 1.0, full volume, or one percentage point.
pub const UNIT: u64 = 1_000_000;

/// One hundred percentage points.
pub const FULL_PERCENT: u64 = 100_000_000;

/// `value` times `factor`, where `factor` is in millionths; rounded down.
pub open spec fn scaled(value: int, factor: int) -> int {
    value * factor / (UNIT as int)
}

/// The share `part / whole` as a percentage in millionths of a point, capped
/// at one hundred; a `whole` of zero counts as fully covered.
pub open spec fn capped_percent(part: int, whole: int) -> int {
    if whole <= 0 {
        FULL_PERCENT as int
    } else if part >= whole {
        FULL_PERCENT as int
    } else {
        part * (FULL_PERCENT as int) / whole
    }
}

/// The share `part / whole` as a whole number of percentage points, rounded
/// to the nearest point (halves go up) and capped at `u64::MAX`. With a
/// `whole` of zero the share is zero when `part` is zero and unbounded
/// otherwise.
pub open spec fn rounded_percent(part: int, whole: int) -> int {
    if whole <= 0 {
        if part <= 0 {
            0
        } else {
            u64::MAX as int
        }
    } else {
        let exact: int = (200 * part + whole) / (2 * whole);
        if exact > u64::MAX {
            u64::MAX as int
        } else {
            exact
        }
    }
}

/// Scaling is monotonic in both the value and the factor.
pub proof fn lemma_scaled_monotonic(v1: int, f1: int, v2: int, f2: int)
    requires
        0 <= v1 <= v2,
        0 <= f1 <= f2,
    ensures
        0 <= scaled(v1, f1) <= scaled(v2, f2),
{
    assert(0 <= v1 * f1 <= v2 * f2) by (nonlinear_arith)
        requires
            0 <= v1 <= v2,
            0 <= f1 <= f2,
    ;
}

/// Largest value and factor that [`scale`] takes: their product fits 64 bits.
pub const SCALE_LIMIT: u64 = 4_000_000_000;

/// Multiplies `value` by a `factor` given in millionths, rounding down.
pub fn scale(value: u64, factor: u64) -> (r: u64)
    requires
        value <= SCALE_LIMIT,
        factor <= SCALE_LIMIT,
    ensures
        r == scaled(value as int, factor as int),
{
    proof {
        lemma_scaled_monotonic(value as int, factor as int, 4_000_000_000, 4_000_000_000);
        assert(value * factor <= 4_000_000_000 * 4_000_000_000) by (nonlinear_arith)
            requires
                value <= 4_000_000_000,
                factor <= 4_000_000_000,
        ;
    }
    value * factor / 1_000_000
}

/// Computes [`capped_percent`].
pub fn percent_capped(part: u64, whole: u64) -> (r: u64)
    ensures
        r == capped_percent(part as int, whole as int),
        r <= FULL_PERCENT,
{
    if whole == 0 || part >= whole {
        FULL_PERCENT
    } else {
        assert(FULL_PERCENT == 100_000_000);
        let wide: u128 = (part as u128) * 100_000_000;
        let q: u128 = wide / (whole as u128);
        assert(q <= 100_000_000) by (nonlinear_arith)
            requires
                q == (part as int) * 100_000_000 / (whole as int),
                0 <= part < whole,
        ;
        q as u64
    }
}

/// Computes [`rounded_percent`].
pub fn percent_rounded(part: u64, whole: u64) -> (r: u64)
    ensures
        r == rounded_percent(part as int, whole as int),
{
    if whole == 0 {
        if part == 0 {
            0
        } else {
            u64::MAX
        }
    } else {
        let wide: u128 = 200 * (part as u128) + (whole as u128);
        let q: u128 = wide / (2 * (whole as u128));
        if q > u64::MAX as u128 {
            u64::MAX
        } else {
            q as u64
        }
    }
}

} // verus!
