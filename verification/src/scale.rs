//! Scale induced by relative input.
use vstd::prelude::*;
use crate::field::{is_cast, Cast, Scalar};
use crate::op;

verus! {

/// Scale induced by relative input.
#[derive(Clone, Copy, Debug)]
pub struct Scale<N> {
    /// Denominator. Default is scroll unit of one hundred and twenty.
    pub den: N,
}

impl<N: Scalar> Default for Scale<N> {
    fn default() -> (scale: Self)
        ensures
            op::from_count(120, scale.den),
    {
        Scale { den: N::from_count(120) }
    }
}

impl<N: Scalar> Scale<N> {
    /// Computes scale ratio from relative value: one minus the value over the denominator.
    pub fn compute(&self, num: N) -> (rat: N)
        ensures
            exists|one: N, part: N|
                op::one(one) && op::over(num, self.den, part) && op::minus(one, part, rat),
    {
        let one = N::one();
        let part = num.over(self.den);
        let rat = one.minus(part);
        assert(op::one(one) && op::over(num, self.den, part) && op::minus(one, part, rat));
        rat
    }

    /// Denominator. Default is scroll unit of one hundred and twenty.
    pub fn denominator(&self) -> (den: N)
        ensures
            den == self.den,
    {
        self.den
    }

    /// Sets denominator. Default is scroll unit of one hundred and twenty.
    pub fn set_denominator(&mut self, den: N)
        ensures
            final(self).den == den,
    {
        self.den = den;
    }
}

impl<N: Copy> Scale<N> {
    /// Casts components to another type, e.g., between single and double precision.
    pub fn cast<M>(self) -> (scale: Scale<M>) where N: Cast<M>
        ensures
            is_cast(self.den, scale.den),
    {
        Scale { den: self.den.cast() }
    }
}

} // verus!
