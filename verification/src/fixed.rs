//! Fixed quantity wrt field of view.
use vstd::prelude::*;
use crate::field::{is_cast, Cast, Scalar, Vec2};
use crate::op;

verus! {

/// Fixed quantity wrt field of view.
///
/// The default is a fixed vertical field of view of π/4.
#[derive(Clone, Copy, Debug)]
pub enum Fixed<N> {
    /// Fixed horizontal field of view aka Vert- scaling.
    Hor(N),
    /// Fixed vertical field of view aka Hor+ scaling.
    Ver(N),
    /// Fixed unit per pixel on focus plane at distance from eye of one aka Pixel-based scaling.
    Upp(N),
}

/// `two` is `1 + 1`.
pub open spec fn is_two<N: Scalar>(two: N) -> bool {
    exists|one: N| op::one(one) && op::plus(one, one, two)
}

/// `slope` is `tan(fov / 2)`.
pub open spec fn is_slope<N: Scalar>(fov: N, slope: N) -> bool {
    exists|two: N, half: N| is_two(two) && op::over(fov, two, half) && op::tan(half, slope)
}

/// `fov` is `atan(slope) * 2`.
pub open spec fn is_fov<N: Scalar>(slope: N, fov: N) -> bool {
    exists|two: N, half: N| is_two(two) && op::atan(slope, half) && op::times(half, two, fov)
}

/// `across` is the field of view across the extent `wide` for the field of view `fov` across
/// the extent `high`: `atan(wide / high * tan(fov / 2)) * 2`.
pub open spec fn is_fov_across<N: Scalar>(wide: N, high: N, fov: N, across: N) -> bool {
    exists|ratio: N, slope: N, other: N|
        op::over(wide, high, ratio) && is_slope(fov, slope) && op::times(ratio, slope, other)
            && is_fov(other, across)
}

/// `fov` is the field of view across the extent `wide` for the unit per pixel `upp`:
/// `atan(wide / 2 * upp) * 2`.
pub open spec fn is_fov_of_upp<N: Scalar>(wide: N, upp: N, fov: N) -> bool {
    exists|two: N, half: N, slope: N|
        is_two(two) && op::over(wide, two, half) && op::times(half, upp, slope) && is_fov(
            slope,
            fov,
        )
}

/// `upp` is the unit per pixel for the field of view `fov` across the extent `wide`:
/// `tan(fov / 2) * 2 / wide`.
pub open spec fn is_upp_of_fov<N: Scalar>(fov: N, wide: N, upp: N) -> bool {
    exists|slope: N, two: N, twice: N|
        is_slope(fov, slope) && is_two(two) && op::times(slope, two, twice) && op::over(
            twice,
            wide,
            upp,
        )
}

/// `reach` is `zat * tan(fov / 2)` in the direction of the extent `wide`, `other` is
/// `high / wide * reach`, and `upp` is `reach * 2 / wide`.
pub open spec fn is_reach<N: Scalar>(
    zat: N,
    fov: N,
    wide: N,
    high: N,
    reach: N,
    other: N,
    upp: N,
) -> bool {
    exists|slope: N, ratio: N, two: N, twice: N|
        is_slope(fov, slope) && op::times(zat, slope, reach) && op::over(high, wide, ratio)
            && op::times(ratio, reach, other) && is_two(two) && op::times(reach, two, twice)
            && op::over(twice, wide, upp)
}

/// Two.
pub fn two<N: Scalar>() -> (two: N)
    ensures
        is_two(two),
{
    let one = N::one();
    let two = one.plus(one);
    assert(op::one(one) && op::plus(one, one, two));
    two
}

/// Tangent of half a field of view.
pub fn slope<N: Scalar>(fov: N) -> (slope: N)
    ensures
        is_slope(fov, slope),
{
    let two = two();
    let half = fov.over(two);
    let slope = half.tan();
    assert(is_two(two) && op::over(fov, two, half) && op::tan(half, slope));
    slope
}

/// Field of view whose half has the given tangent.
pub fn fov<N: Scalar>(slope: N) -> (fov: N)
    ensures
        is_fov(slope, fov),
{
    let two = two();
    let half = slope.atan();
    let fov = half.times(two);
    assert(is_two(two) && op::atan(slope, half) && op::times(half, two, fov));
    fov
}

/// Field of view across the extent `wide` for the field of view `fov` across the extent `high`.
pub fn fov_across<N: Scalar>(wide: N, high: N, fov: N) -> (across: N)
    ensures
        is_fov_across(wide, high, fov, across),
{
    let ratio = wide.over(high);
    let slope = slope(fov);
    let other = ratio.times(slope);
    let across = self::fov(other);
    assert(op::over(wide, high, ratio) && is_slope(fov, slope) && op::times(ratio, slope, other)
        && is_fov(other, across));
    across
}

/// Field of view across the extent `wide` for the unit per pixel `upp`.
pub fn fov_of_upp<N: Scalar>(wide: N, upp: N) -> (fov: N)
    ensures
        is_fov_of_upp(wide, upp, fov),
{
    let two = two();
    let half = wide.over(two);
    let slope = half.times(upp);
    let fov = self::fov(slope);
    assert(is_two(two) && op::over(wide, two, half) && op::times(half, upp, slope) && is_fov(
        slope,
        fov,
    ));
    fov
}

/// Unit per pixel for the field of view `fov` across the extent `wide`.
pub fn upp_of_fov<N: Scalar>(fov: N, wide: N) -> (upp: N)
    ensures
        is_upp_of_fov(fov, wide, upp),
{
    let slope = slope(fov);
    let two = two();
    let twice = slope.times(two);
    let upp = twice.over(wide);
    assert(is_slope(fov, slope) && is_two(two) && op::times(slope, two, twice) && op::over(
        twice,
        wide,
        upp,
    ));
    upp
}

impl<N: Scalar> Default for Fixed<N> {
    fn default() -> (fixed: Self)
        ensures
            fixed matches Fixed::Ver(fov) && op::frac_pi_4(fov),
    {
        Fixed::Ver(N::frac_pi_4())
    }
}

impl<N: Scalar> Fixed<N> {
    /// Fixed vertical field of view.
    pub fn from(fov: N) -> (fixed: Self)
        ensures
            fixed == Fixed::Ver(fov),
    {
        Fixed::Ver(fov)
    }

    /// Underlying quantity.
    pub open spec fn inner(self) -> N {
        match self {
            Fixed::Hor(fov) => fov,
            Fixed::Ver(fov) => fov,
            Fixed::Upp(upp) => upp,
        }
    }

    /// `fixed` is the horizontal field of view for the same scope on a screen of the
    /// extents `max`.
    pub open spec fn is_to_hor(self, max: Vec2<N>, fixed: Self) -> bool {
        fixed is Hor && match self {
            Fixed::Hor(fov) => fixed.inner() == fov,
            Fixed::Ver(fov) => is_fov_across(max.x, max.y, fov, fixed.inner()),
            Fixed::Upp(upp) => is_fov_of_upp(max.x, upp, fixed.inner()),
        }
    }

    /// `fixed` is the vertical field of view for the same scope on a screen of the extents
    /// `max`.
    pub open spec fn is_to_ver(self, max: Vec2<N>, fixed: Self) -> bool {
        fixed is Ver && match self {
            Fixed::Hor(fov) => is_fov_across(max.y, max.x, fov, fixed.inner()),
            Fixed::Ver(fov) => fixed.inner() == fov,
            Fixed::Upp(upp) => is_fov_of_upp(max.y, upp, fixed.inner()),
        }
    }

    /// `fixed` is the unit per pixel for the same scope on a screen of the extents `max`.
    pub open spec fn is_to_upp(self, max: Vec2<N>, fixed: Self) -> bool {
        fixed is Upp && match self {
            Fixed::Hor(fov) => is_upp_of_fov(fov, max.x, fixed.inner()),
            Fixed::Ver(fov) => is_upp_of_fov(fov, max.y, fixed.inner()),
            Fixed::Upp(upp) => fixed.inner() == upp,
        }
    }

    /// `top` is the maximum position in camera space and `upp` the unit per pixel on the
    /// focus plane at the distance `zat`.
    pub open spec fn is_max_and_upp(self, zat: N, max: Vec2<N>, top: Vec2<N>, upp: N) -> bool {
        match self {
            Fixed::Hor(fov) => is_reach(zat, fov, max.x, max.y, top.x, top.y, upp),
            Fixed::Ver(fov) => is_reach(zat, fov, max.y, max.x, top.y, top.x, upp),
            Fixed::Upp(unit) => op::times(unit, zat, upp) && exists|two: N, x: N, y: N|
                is_two(two) && op::over(max.x, two, x) && op::over(max.y, two, y) && op::times(
                    x,
                    upp,
                    top.x,
                ) && op::times(y, upp, top.y),
        }
    }

    /// `equal` tells whether both fix the same kind of quantity at values that compare equal.
    pub open spec fn is_same(self, other: Self, equal: bool) -> bool {
        match (self, other) {
            (Fixed::Hor(a), Fixed::Hor(b)) => op::same(a, b, equal),
            (Fixed::Ver(a), Fixed::Ver(b)) => op::same(a, b, equal),
            (Fixed::Upp(a), Fixed::Upp(b)) => op::same(a, b, equal),
            _ => !equal,
        }
    }

    /// Converts to fixed horizontal field of view wrt maximum position in screen space.
    pub fn to_hor(self, max: &Vec2<N>) -> (fixed: Self)
        ensures
            self.is_to_hor(*max, fixed),
    {
        Fixed::Hor(
            match self {
                Fixed::Hor(fov) => fov,
                Fixed::Ver(fov) => fov_across(max.x, max.y, fov),
                Fixed::Upp(upp) => fov_of_upp(max.x, upp),
            },
        )
    }

    /// Converts to fixed vertical field of view wrt maximum position in screen space.
    pub fn to_ver(self, max: &Vec2<N>) -> (fixed: Self)
        ensures
            self.is_to_ver(*max, fixed),
    {
        Fixed::Ver(
            match self {
                Fixed::Hor(fov) => fov_across(max.y, max.x, fov),
                Fixed::Ver(fov) => fov,
                Fixed::Upp(upp) => fov_of_upp(max.y, upp),
            },
        )
    }

    /// Converts to fixed unit per pixel on focus plane at distance from eye of one wrt maximum
    /// position in screen space.
    pub fn to_upp(self, max: &Vec2<N>) -> (fixed: Self)
        ensures
            self.is_to_upp(*max, fixed),
    {
        Fixed::Upp(
            match self {
                Fixed::Hor(fov) => upp_of_fov(fov, max.x),
                Fixed::Ver(fov) => upp_of_fov(fov, max.y),
                Fixed::Upp(upp) => upp,
            },
        )
    }

    /// Maximum position in camera space and unit per pixel on focus plane wrt distance between
    /// eye and target and maximum position in screen space.
    pub fn max_and_upp(&self, zat: N, max: &Vec2<N>) -> (reach: (Vec2<N>, N))
        ensures
            self.is_max_and_upp(zat, *max, reach.0, reach.1),
    {
        match *self {
            Fixed::Hor(fov) => {
                let slope = slope(fov);
                let x = zat.times(slope);
                let ratio = max.y.over(max.x);
                let y = ratio.times(x);
                let two = two();
                let twice = x.times(two);
                let upp = twice.over(max.x);
                assert(is_slope(fov, slope) && op::times(zat, slope, x) && op::over(
                    max.y,
                    max.x,
                    ratio,
                ) && op::times(ratio, x, y) && is_two(two) && op::times(x, two, twice) && op::over(
                    twice,
                    max.x,
                    upp,
                ));
                (Vec2 { x, y }, upp)
            },
            Fixed::Ver(fov) => {
                let slope = slope(fov);
                let y = zat.times(slope);
                let ratio = max.x.over(max.y);
                let x = ratio.times(y);
                let two = two();
                let twice = y.times(two);
                let upp = twice.over(max.y);
                assert(is_slope(fov, slope) && op::times(zat, slope, y) && op::over(
                    max.x,
                    max.y,
                    ratio,
                ) && op::times(ratio, y, x) && is_two(two) && op::times(y, two, twice) && op::over(
                    twice,
                    max.y,
                    upp,
                ));
                (Vec2 { x, y }, upp)
            },
            Fixed::Upp(unit) => {
                let upp = unit.times(zat);
                let two = two();
                let x = max.x.over(two);
                let y = max.y.over(two);
                let top = Vec2 { x: x.times(upp), y: y.times(upp) };
                assert(is_two(two) && op::over(max.x, two, x) && op::over(max.y, two, y)
                    && op::times(x, upp, top.x) && op::times(y, upp, top.y));
                (top, upp)
            },
        }
    }

    /// Underlying quantity.
    pub fn into_inner(self) -> (quantity: N)
        ensures
            quantity == self.inner(),
    {
        match self {
            Fixed::Hor(fov) => fov,
            Fixed::Ver(fov) => fov,
            Fixed::Upp(upp) => upp,
        }
    }

    /// Whether both fix the same kind of quantity at values that compare equal.
    pub fn same(&self, other: &Self) -> (equal: bool)
        ensures
            self.is_same(*other, equal),
    {
        match (*self, *other) {
            (Fixed::Hor(a), Fixed::Hor(b)) => a.same(b),
            (Fixed::Ver(a), Fixed::Ver(b)) => a.same(b),
            (Fixed::Upp(a), Fixed::Upp(b)) => a.same(b),
            _ => false,
        }
    }
}

impl<N: Copy> Fixed<N> {
    /// `fixed` fixes the same kind of quantity at the cast value.
    pub open spec fn is_cast<M>(self, fixed: Fixed<M>) -> bool where N: Cast<M> {
        match self {
            Fixed::Hor(fov) => fixed matches Fixed::Hor(cast) && is_cast(fov, cast),
            Fixed::Ver(fov) => fixed matches Fixed::Ver(cast) && is_cast(fov, cast),
            Fixed::Upp(upp) => fixed matches Fixed::Upp(cast) && is_cast(upp, cast),
        }
    }

    /// Casts components to another type, e.g., between single and double precision.
    pub fn cast<M>(self) -> (fixed: Fixed<M>) where N: Cast<M>
        ensures
            self.is_cast(fixed),
    {
        match self {
            Fixed::Hor(fov) => Fixed::Hor(fov.cast()),
            Fixed::Ver(fov) => Fixed::Ver(fov.cast()),
            Fixed::Upp(upp) => Fixed::Upp(upp.cast()),
        }
    }
}

} // verus!
