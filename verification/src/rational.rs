//! Rational numbers for frame rates and aspect ratios.

use vstd::prelude::*;

verus! {

/// A rational value `num / den`, as frame rates and sample aspect ratios are
/// conventionally written (30/1 frames per second, 16/9).
#[derive(Clone, Copy, Debug, PartialEq, Eq, Structural)]
pub struct Rational {
    pub num: i32,
    pub den: i32,
}

impl Rational {
    /// A frame rate usable for pacing: positive, so the nominal frame
    /// interval `den / num` seconds is well defined.
    pub open spec fn is_positive(&self) -> bool {
        self.num > 0 && self.den > 0
    }

    pub fn new(num: i32, den: i32) -> (r: Rational)
        ensures
            r.num == num,
            r.den == den,
    {
        Rational { num, den }
    }

    /// The reciprocal, as used to derive a time base from a frame rate.
    pub fn invert(&self) -> (r: Rational)
        ensures
            r.num == self.den,
            r.den == self.num,
    {
        Rational { num: self.den, den: self.num }
    }
}

/// The nominal interval between frames at rate `r`, in milliseconds,
/// rounded down: a rate of `num / den` frames per second leaves
/// `1000 * den / num` milliseconds per frame.
pub open spec fn spec_frame_interval_ms(r: Rational) -> int
    recommends
        r.is_positive(),
{
    1000 * r.den / (r.num as int)
}

/// Computes the nominal frame interval in milliseconds for a positive rate.
pub fn frame_interval_ms(r: &Rational) -> (d: u64)
    requires
        r.is_positive(),
    ensures
        d == spec_frame_interval_ms(*r),
        d <= 1000 * 0x7fff_ffff,
{
    let num = r.num as u64;
    let den = r.den as u64;
    proof {
        assert(1000 * (den as int) / (num as int) <= 1000 * (den as int)) by (nonlinear_arith)
            requires
                num >= 1,
                den >= 0,
        ;
    }
    1000 * den / num
}

} // verus!
