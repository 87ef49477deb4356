//! Yield multipliers as exact hundredths.

use vstd::prelude::*;

verus! {

/// `n / d` rounded to the nearest integer, halves away from zero.
pub open spec fn round_half_away(n: int, d: int) -> int
    recommends
        d > 0,
{
    if n >= 0 {
        (2 * n + d) / (2 * d)
    } else {
        -((2 * (-n) + d) / (2 * d))
    }
}

/// `x` held to the range of `i32`.
pub open spec fn clamp_i32(x: int) -> int {
    if x > i32::MAX {
        i32::MAX as int
    } else if x < i32::MIN {
        i32::MIN as int
    } else {
        x
    }
}

/// `x` held to the range of `u32`.
pub open spec fn clamp_u32(x: int) -> int {
    if x > u32::MAX {
        u32::MAX as int
    } else if x < 0 {
        0
    } else {
        x
    }
}

/// Computes `round_half_away(n, d)` for a positive divisor.
fn rounded_quotient(n: i128, d: i128) -> (r: i128)
    requires
        0 < d <= 1_000_000,
        -0x1_0000_0000_0000_0000_0000_0000 <= n <= 0x1_0000_0000_0000_0000_0000_0000,
    ensures
        r == round_half_away(n as int, d as int),
{
    if n >= 0 {
        (2 * n + d) / (2 * d)
    } else {
        let q: i128 = (2 * (-n) + d) / (2 * d);
        -q
    }
}

/// A factor applied to a harvest, in hundredths: 100 leaves an amount as it
/// is, 50 halves it, 150 adds a half.
#[derive(Debug, Clone, Copy, PartialEq, Eq, Hash, Structural)]
pub struct Multiplier {
    pub percent: u32,
}

impl Multiplier {
    /// The factor of `percent` hundredths.
    pub fn from_percent(percent: u32) -> (m: Multiplier)
        ensures
            m.percent == percent,
    {
        Multiplier { percent }
    }

    /// The factor that changes nothing.
    pub open spec fn spec_one() -> Multiplier {
        Multiplier { percent: 100 }
    }

    /// The factor that changes nothing.
    #[verifier::when_used_as_spec(spec_one)]
    pub fn one() -> (m: Multiplier)
        ensures
            m == Multiplier::spec_one(),
    {
        Multiplier { percent: 100 }
    }

    /// Whether this factor changes nothing.
    pub fn is_one(&self) -> (b: bool)
        ensures
            b == (self.percent == 100),
    {
        self.percent == 100
    }

    /// Whether this factor reduces an amount.
    pub fn is_below_one(&self) -> (b: bool)
        ensures
            b == (self.percent < 100),
    {
        self.percent < 100
    }

    /// `amount` times this factor, rounded to the nearest integer with halves
    /// away from zero, and held to the range of `i32`.
    pub open spec fn scaled(self, amount: int) -> int {
        clamp_i32(round_half_away(amount * self.percent, 100))
    }

    /// Applies the factor to `amount`.
    pub fn apply(&self, amount: i32) -> (r: i32)
        ensures
            r == self.scaled(amount as int),
    {
        let a: i128 = amount as i128;
        let p: i128 = self.percent as i128;
        assert(-0x8000_0000 * 0x1_0000_0000 <= a * p <= 0x8000_0000 * 0x1_0000_0000)
            by (nonlinear_arith)
            requires
                -0x8000_0000 <= a <= 0x8000_0000,
                0 <= p <= 0x1_0000_0000,
        ;
        let q: i128 = rounded_quotient(a * p, 100);
        if q > i32::MAX as i128 {
            i32::MAX
        } else if q < i32::MIN as i128 {
            i32::MIN
        } else {
            q as i32
        }
    }

    /// The product of two factors, rounded to whole hundredths and held to
    /// the range of `u32`.
    pub open spec fn spec_combine(self, other: Multiplier) -> Multiplier {
        Multiplier {
            percent: clamp_u32(round_half_away(self.percent * other.percent, 100)) as u32,
        }
    }

    /// Multiplies two factors.
    #[verifier::when_used_as_spec(spec_combine)]
    pub fn combine(self, other: Multiplier) -> (m: Multiplier)
        ensures
            m == self.spec_combine(other),
    {
        let a: i128 = self.percent as i128;
        let b: i128 = other.percent as i128;
        assert(0 <= a * b <= 0x1_0000_0000 * 0x1_0000_0000) by (nonlinear_arith)
            requires
                0 <= a <= 0x1_0000_0000,
                0 <= b <= 0x1_0000_0000,
        ;
        let q: i128 = rounded_quotient(a * b, 100);
        if q > u32::MAX as i128 {
            Multiplier { percent: u32::MAX }
        } else {
            Multiplier { percent: q as u32 }
        }
    }
}

/// `amount` times both factors, rounded once at the end, halves away from
/// zero, and held to the range of `i32`.
pub open spec fn scaled_by_both(amount: int, first: Multiplier, second: Multiplier) -> int {
    clamp_i32(round_half_away(amount * first.percent * second.percent, 10_000))
}

/// Applies two factors to `amount` with a single rounding.
pub fn apply_both(amount: i32, first: Multiplier, second: Multiplier) -> (r: i32)
    ensures
        r == scaled_by_both(amount as int, first, second),
{
    let a: i128 = amount as i128;
    let p: i128 = first.percent as i128;
    let s: i128 = second.percent as i128;
    assert(-0x8000_0000 * 0x1_0000_0000 <= a * p <= 0x8000_0000 * 0x1_0000_0000)
        by (nonlinear_arith)
        requires
            -0x8000_0000 <= a <= 0x8000_0000,
            0 <= p <= 0x1_0000_0000,
    ;
    let ap: i128 = a * p;
    assert(-0x8000_0000 * 0x1_0000_0000 * 0x1_0000_0000 <= ap * s <= 0x8000_0000 * 0x1_0000_0000
        * 0x1_0000_0000) by (nonlinear_arith)
        requires
            -0x8000_0000 * 0x1_0000_0000 <= ap <= 0x8000_0000 * 0x1_0000_0000,
            0 <= s <= 0x1_0000_0000,
    ;
    let q: i128 = rounded_quotient(ap * s, 10_000);
    if q > i32::MAX as i128 {
        i32::MAX
    } else if q < i32::MIN as i128 {
        i32::MIN
    } else {
        q as i32
    }
}

} // verus!
