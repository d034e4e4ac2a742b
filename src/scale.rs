use vstd::prelude::*;

verus! {

/// A positive scale factor, held exactly as the ratio `num / den`.
#[derive(Debug, Clone, Copy, PartialEq, Eq, Structural)]
pub struct ScaleFactor {
    pub num: u32,
    pub den: u32,
}

/// `floor(side * num / den)`: the side of an upscaled square image.
pub open spec fn scaled_side(side: nat, factor: ScaleFactor) -> nat {
    (side * factor.num as nat) / (factor.den as nat)
}

impl ScaleFactor {
    /// Both terms of the ratio are positive.
    pub open spec fn wf(&self) -> bool {
        self.num >= 1 && self.den >= 1
    }

    /// The factor `num / den`, when it is positive.
    pub fn ratio(num: u32, den: u32) -> (r: Option<ScaleFactor>)
        ensures
            r is Some <==> num >= 1 && den >= 1,
            r matches Some(f) ==> f.wf() && f.num == num && f.den == den,
    {
        if num >= 1 && den >= 1 {
            Some(ScaleFactor { num, den })
        } else {
            None
        }
    }

    /// The factor as a whole number.
    pub fn whole(n: u32) -> (r: Option<ScaleFactor>)
        ensures
            r is Some <==> n >= 1,
            r matches Some(f) ==> f.wf() && f.num == n && f.den == 1,
    {
        ScaleFactor::ratio(n, 1)
    }

    /// The side that a square image of side `side` takes after scaling, rounded down.
    pub fn apply(&self, side: u32) -> (r: u64)
        requires
            self.wf(),
        ensures
            r as nat == scaled_side(side as nat, *self),
    {
        proof {
            assert(side as nat * self.num as nat <= u32::MAX as nat * u32::MAX as nat) by (nonlinear_arith)
                requires side <= u32::MAX, self.num <= u32::MAX;
        }
        (side as u64 * self.num as u64) / self.den as u64
    }
}

} // verus!
