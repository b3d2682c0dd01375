//! Rational time bases and timestamp rescaling.
//!
//! A track's timestamps are counts of a rational unit, `num / den` seconds
//! per tick. When a packet moves between containers whose tracks use
//! different units, its timestamp must be rescaled from one rational to the
//! other.

use vstd::prelude::*;

verus! {

/// The rational unit of a track's timestamps: `num / den` seconds per tick.
#[derive(Clone, Copy, Debug, PartialEq, Eq, Structural)]
pub struct TimeBase {
    /// Numerator of the tick length in seconds.
    pub num: u32,
    /// Denominator of the tick length in seconds.
    pub den: u32,
}

impl TimeBase {
    /// A usable time base has a positive numerator and denominator.
    pub open spec fn valid(self) -> bool {
        self.num >= 1 && self.den >= 1
    }

    /// Builds the time base `num / den` seconds per tick.
    pub fn new(num: u32, den: u32) -> (r: TimeBase)
        requires
            num >= 1,
            den >= 1,
        ensures
            r.num == num,
            r.den == den,
            r.valid(),
    {
        TimeBase { num, den }
    }
}

/// A timestamp of `ts` ticks of `from`, re-expressed in ticks of `to` and
/// rounded down: `ts * from.num * to.den / (from.den * to.num)`.
pub open spec fn rescale_spec(ts: int, from: TimeBase, to: TimeBase) -> int
    recommends
        from.valid(),
        to.valid(),
{
    (ts * from.num * to.den) / (from.den * to.num)
}

/// Re-expresses a non-negative timestamp in another time base, rounding
/// down; `None` when the result does not fit a signed 64-bit count.
pub fn rescale_ts(ts: i64, from: TimeBase, to: TimeBase) -> (r: Option<i64>)
    requires
        ts >= 0,
        from.valid(),
        to.valid(),
    ensures
        ({
            let q = rescale_spec(ts as int, from, to);
            &&& r is Some <==> q <= i64::MAX
            &&& (r matches Some(v) ==> v == q && v >= 0)
        }),
{
    proof {
        vstd::arithmetic::mul::lemma_mul_upper_bound(ts as int, i64::MAX as int, from.num as int,
            u32::MAX as int);
        vstd::arithmetic::mul::lemma_mul_upper_bound((ts as int) * (from.num as int),
            (i64::MAX as int) * (u32::MAX as int), to.den as int, u32::MAX as int);
        vstd::arithmetic::mul::lemma_mul_upper_bound(from.den as int, u32::MAX as int,
            to.num as int, u32::MAX as int);
        vstd::arithmetic::mul::lemma_mul_nonnegative(ts as int, from.num as int);
        vstd::arithmetic::mul::lemma_mul_nonnegative((ts as int) * (from.num as int),
            to.den as int);
        vstd::arithmetic::mul::lemma_mul_strictly_positive(from.den as int, to.num as int);
    }
    let wide: u128 = (ts as u128) * (from.num as u128) * (to.den as u128);
    let unit: u128 = (from.den as u128) * (to.num as u128);
    let q: u128 = wide / unit;
    proof {
        vstd::arithmetic::div_mod::lemma_div_pos_is_pos(wide as int, unit as int);
    }
    if q > i64::MAX as u128 {
        None
    } else {
        Some(q as i64)
    }
}

} // verus!
