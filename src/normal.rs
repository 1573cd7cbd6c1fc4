//! Fixed-point values constrained to the unit interval.
//!
//! A [`Normal`] counts units of `1 / NORMAL_ONE`, so `NORMAL_ONE` units stand
//! for 1.0 and every value lies in `[0, 1]`.
use vstd::prelude::*;

verus! {

/// Units in a whole normal: a [`Normal`] of `NORMAL_ONE` units is 1.0.
pub const NORMAL_ONE: u32 = 1_000_000_000;

/// `x` clamped into `[0, NORMAL_ONE]`.
pub open spec fn clip(x: int) -> int {
    if x < 0 {
        0
    } else if x > NORMAL_ONE as int {
        NORMAL_ONE as int
    } else {
        x
    }
}

/// Clamping lands in `[0, NORMAL_ONE]`, and leaves a value already there as
/// it is.
pub proof fn lemma_clip_range(x: int)
    ensures
        0 <= clip(x) <= NORMAL_ONE,
        0 <= x <= NORMAL_ONE ==> clip(x) == x,
{
}

/// `value * scalar / NORMAL_ONE`, rounded down.
pub open spec fn scaled(value: int, scalar: int) -> int {
    (value * scalar) / (NORMAL_ONE as int)
}

/// A value in `[0, 1]`, held as `0 ..= NORMAL_ONE` units.
#[derive(Debug, Clone, Copy, PartialEq, Eq, Structural)]
pub struct Normal {
    units: u32,
}

impl Normal {
    /// The number of units this normal holds.
    pub closed spec fn view(self) -> int {
        self.units as int
    }

    #[verifier::type_invariant]
    spec fn bounded(self) -> bool {
        self.units <= NORMAL_ONE
    }

    /// The normal 0.0.
    pub fn minimum() -> (r: Normal)
        ensures
            r@ == 0,
    {
        Normal { units: 0 }
    }

    /// The normal 0.5.
    pub fn center() -> (r: Normal)
        ensures
            r@ == NORMAL_ONE / 2,
    {
        Normal { units: NORMAL_ONE / 2 }
    }

    /// The normal 1.0.
    pub fn maximum() -> (r: Normal)
        ensures
            r@ == NORMAL_ONE,
    {
        Normal { units: NORMAL_ONE }
    }

    /// `value` units clamped into `[0, NORMAL_ONE]`; never fails.
    pub fn from_clipped(value: i64) -> (r: Normal)
        ensures
            r@ == clip(value as int),
    {
        if value < 0 {
            Normal { units: 0 }
        } else if value > NORMAL_ONE as i64 {
            Normal { units: NORMAL_ONE }
        } else {
            Normal { units: value as u32 }
        }
    }

    /// Same as [`Normal::from_clipped`].
    pub fn new(value: i64) -> (r: Normal)
        ensures
            r@ == clip(value as int),
    {
        Normal::from_clipped(value)
    }

    /// Replaces the value by `value` units clamped into `[0, NORMAL_ONE]`.
    pub fn set_clipped(&mut self, value: i64)
        ensures
            final(self)@ == clip(value as int),
    {
        *self = Normal::from_clipped(value);
    }

    /// The number of units held.
    pub fn as_units(&self) -> (r: u32)
        ensures
            r as int == self@,
            r <= NORMAL_ONE,
    {
        proof {
            use_type_invariant(self);
        }
        self.units
    }

    /// The number of units held by `1 - self`.
    pub fn as_units_inv(&self) -> (r: u32)
        ensures
            r as int == NORMAL_ONE - self@,
            r <= NORMAL_ONE,
    {
        proof {
            use_type_invariant(self);
        }
        NORMAL_ONE - self.units
    }

    /// `self * scalar`, rounded down.
    pub fn scale(&self, scalar: i64) -> (r: i64)
        ensures
            r as int == scaled(self@, scalar as int),
    {
        proof {
            use_type_invariant(self);
        }
        mul_div_floor(self.units, scalar)
    }

    /// `(1 - self) * scalar`, rounded down.
    pub fn scale_inv(&self, scalar: i64) -> (r: i64)
        ensures
            r as int == scaled(NORMAL_ONE - self@, scalar as int),
    {
        let inv: u32 = self.as_units_inv();
        mul_div_floor(inv, scalar)
    }
}

/// `units * scalar / NORMAL_ONE` rounded down, for `units <= NORMAL_ONE`.
fn mul_div_floor(units: u32, scalar: i64) -> (r: i64)
    requires
        units <= NORMAL_ONE,
    ensures
        r as int == scaled(units as int, scalar as int),
{
    proof {
        let ghost (u, s) = (units as int, scalar as int);
        assert(-0x4000_0000_0000_0000_0000_0000 <= u * s <= 0x4000_0000_0000_0000_0000_0000)
            by (nonlinear_arith)
            requires
                0 <= u <= NORMAL_ONE,
                -0x8000_0000_0000_0000 <= s < 0x8000_0000_0000_0000;
        assert(0 <= u * s / (NORMAL_ONE as int) <= s || s <= u * s / (NORMAL_ONE as int) <= 0)
            by (nonlinear_arith)
            requires 0 <= u <= NORMAL_ONE;
    }
    let p: i128 = units as i128 * scalar as i128;
    let d: i128 = NORMAL_ONE as i128;
    let q: i128 = if p >= 0 {
        p / d
    } else {
        let m: i128 = (-p + d - 1) / d;
        proof {
            let ghost (pi, di) = (p as int, d as int);
            assert(-((-pi + di - 1) / di) == pi / di) by (nonlinear_arith)
                requires pi < 0, di > 0;
        }
        -m
    };
    q as i64
}

impl Default for Normal {
    fn default() -> (r: Normal)
        ensures
            r@ == 0,
    {
        Normal::minimum()
    }
}

/// A normalized `value` together with the `default` that a reset restores.
#[derive(Debug, Clone, Copy, PartialEq, Eq, Structural)]
pub struct NormalParam {
    pub value: Normal,
    pub default: Normal,
}

impl NormalParam {
    /// Overwrites the value; the default is kept.
    pub fn update(&mut self, normal: Normal)
        ensures
            final(self).value == normal,
            final(self).default == old(self).default,
    {
        self.value = normal;
    }
}

impl Default for NormalParam {
    fn default() -> (r: NormalParam)
        ensures
            r.value@ == 0,
            r.default@ == 0,
    {
        NormalParam { value: Normal::minimum(), default: Normal::minimum() }
    }
}

} // verus!
