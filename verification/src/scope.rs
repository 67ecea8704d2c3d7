//! Scope defining enclosing viewing frustum.
use vstd::prelude::*;
use crate::field::{is_cast, Cast, Mat4, Scalar, Vec2};
use crate::fixed::Fixed;
use crate::op;

verus! {

/// Scope defining enclosing viewing frustum.
#[derive(Clone, Copy, Debug)]
pub struct Scope<N> {
    /// Fixed quantity wrt field of view.
    ///
    /// Default is fixed vertical field of view of π/4.
    pub fov: Fixed<N>,
    /// Near clip plane distance from either target or eye whether [`Self::oim`].
    ///
    /// Default is a tenth measured from eye.
    pub znear: N,
    /// Far clip plane distance from either target or eye whether [`Self::oim`].
    ///
    /// Default is a thousand measured from eye.
    pub zfar: N,
    /// Object inspection mode.
    ///
    /// Scales clip plane distances by measuring from target instead of eye. Default is `false`.
    pub oim: bool,
    /// Orthographic projection mode.
    ///
    /// Computes scale-identical orthographic instead of perspective projection. Default is `false`.
    pub opm: bool,
}

impl<N: Scalar> Default for Scope<N> {
    fn default() -> (scope: Self)
        ensures
            scope.fov matches Fixed::Ver(fov) && op::frac_pi_4(fov),
            op::tenth(scope.znear),
            op::from_count(1000, scope.zfar),
            !scope.oim,
            !scope.opm,
    {
        Scope {
            fov: Fixed::Ver(N::frac_pi_4()),
            znear: N::tenth(),
            zfar: N::from_count(1000),
            oim: false,
            opm: false,
        }
    }
}

impl<N: Scalar> Scope<N> {
    /// Fixed quantity wrt field of view, see [`Self::set_fov()`].
    pub fn fov(&self) -> (fov: Fixed<N>)
        ensures
            fov == self.fov,
    {
        self.fov
    }

    /// Sets fixed quantity wrt field of view.
    pub fn set_fov(&mut self, fov: Fixed<N>)
        ensures
            *final(self) == (Scope { fov, ..*old(self) }),
    {
        self.fov = fov;
    }

    /// In object inspection mode, `near` is `zat - znear` and `far` is `zat + zfar`, else
    /// these are the distances that were set.
    pub open spec fn is_clip_planes(self, zat: N, near: N, far: N) -> bool {
        if self.oim {
            op::minus(zat, self.znear, near) && op::plus(zat, self.zfar, far)
        } else {
            near == self.znear && far == self.zfar
        }
    }

    /// Clip plane distances from eye regardless of [`Self::scale()`] wrt to distance between eye
    /// and target.
    ///
    /// Outside of object inspection mode these are the distances that were set.
    pub fn clip_planes(&self, zat: N) -> (planes: (N, N))
        ensures
            self.is_clip_planes(zat, planes.0, planes.1),
    {
        if self.oim {
            (zat.minus(self.znear), zat.plus(self.zfar))
        } else {
            (self.znear, self.zfar)
        }
    }

    /// Sets clip plane distances from target or eye whether [`Self::scale()`].
    pub fn set_clip_planes(&mut self, znear: N, zfar: N)
        ensures
            *final(self) == (Scope { znear, zfar, ..*old(self) }),
    {
        self.znear = znear;
        self.zfar = zfar;
    }

    /// Object inspection mode.
    pub fn scale(&self) -> (oim: bool)
        ensures
            oim == self.oim,
    {
        self.oim
    }

    /// Sets object inspection mode.
    pub fn set_scale(&mut self, oim: bool)
        ensures
            *final(self) == (Scope { oim, ..*old(self) }),
    {
        self.oim = oim;
    }

    /// Orthographic projection mode.
    pub fn ortho(&self) -> (opm: bool)
        ensures
            opm == self.opm,
    {
        self.opm
    }

    /// Sets orthographic projection mode.
    pub fn set_ortho(&mut self, opm: bool)
        ensures
            *final(self) == (Scope { opm, ..*old(self) }),
    {
        self.opm = opm;
    }

    /// `mat` is the projection and `upp` the unit per pixel on the focus plane at the
    /// distance `zat`: the orthographic projection of the box that the maximum position in
    /// camera space spans between the clip planes in orthographic projection mode, else the
    /// perspective projection of the aspect ratio of that position and the vertical field of
    /// view between the clip planes.
    pub open spec fn is_projection_and_upp(self, zat: N, max: Vec2<N>, mat: Mat4<N>, upp: N) -> bool {
        exists|near: N, far: N, top: Vec2<N>|
            self.is_clip_planes(zat, near, far) && self.fov.is_max_and_upp(zat, max, top, upp)
                && if self.opm {
                exists|left: N, bottom: N|
                    op::negate(top.x, left) && op::negate(top.y, bottom) && op::mat_orthographic(
                        left,
                        top.x,
                        bottom,
                        top.y,
                        near,
                        far,
                        mat,
                    )
            } else {
                exists|ver: Fixed<N>, aspect: N|
                    self.fov.is_to_ver(max, ver) && op::over(top.x, top.y, aspect)
                        && op::mat_perspective(aspect, ver.inner(), near, far, mat)
            }
    }

    /// `equal` tells whether both scopes are in the same modes with quantities that compare
    /// equal.
    pub open spec fn is_same(self, other: Self, equal: bool) -> bool {
        exists|fov: bool, near: bool, far: bool|
            self.fov.is_same(other.fov, fov) && op::same(self.znear, other.znear, near)
                && op::same(self.zfar, other.zfar, far) && equal == (fov && near && far
                && self.oim == other.oim && self.opm == other.opm)
    }

    /// Projection transformation and unit per pixel on focus plane wrt distance between eye and
    /// target and maximum position in screen space.
    pub fn projection_and_upp(&self, zat: N, max: &Vec2<N>) -> (projection: (Mat4<N>, N))
        ensures
            self.is_projection_and_upp(zat, *max, projection.0, projection.1),
    {
        let (near, far) = self.clip_planes(zat);
        if self.opm {
            let (top, upp) = self.fov.max_and_upp(zat, max);
            let left = top.x.negate();
            let bottom = top.y.negate();
            let mat = N::mat_orthographic(left, top.x, bottom, top.y, near, far);
            assert(op::negate(top.x, left) && op::negate(top.y, bottom) && op::mat_orthographic(
                left,
                top.x,
                bottom,
                top.y,
                near,
                far,
                mat,
            ));
            assert(self.is_clip_planes(zat, near, far) && self.fov.is_max_and_upp(
                zat,
                *max,
                top,
                upp,
            ));
            (mat, upp)
        } else {
            let ver = self.fov.to_ver(max);
            let (top, upp) = self.fov.max_and_upp(zat, max);
            let aspect = top.x.over(top.y);
            let mat = N::mat_perspective(aspect, ver.into_inner(), near, far);
            assert(self.fov.is_to_ver(*max, ver) && op::over(top.x, top.y, aspect)
                && op::mat_perspective(aspect, ver.inner(), near, far, mat));
            assert(self.is_clip_planes(zat, near, far) && self.fov.is_max_and_upp(
                zat,
                *max,
                top,
                upp,
            ));
            (mat, upp)
        }
    }

    /// Whether both scopes are in the same modes with quantities that compare equal.
    pub fn same(&self, other: &Self) -> (equal: bool)
        ensures
            self.is_same(*other, equal),
    {
        let fov = self.fov.same(&other.fov);
        let near = self.znear.same(other.znear);
        let far = self.zfar.same(other.zfar);
        assert(op::same(self.znear, other.znear, near) && op::same(self.zfar, other.zfar, far));
        fov && near && far && self.oim == other.oim && self.opm == other.opm
    }
}

impl<N: Copy> Scope<N> {
    /// Casts components to another type, e.g., between single and double precision.
    pub fn cast<M>(self) -> (scope: Scope<M>) where N: Cast<M>
        ensures
            self.fov.is_cast(scope.fov),
            is_cast(self.znear, scope.znear),
            is_cast(self.zfar, scope.zfar),
            scope.oim == self.oim,
            scope.opm == self.opm,
    {
        Scope {
            fov: self.fov.cast(),
            znear: self.znear.cast(),
            zfar: self.zfar.cast(),
            oim: self.oim,
            opm: self.opm,
        }
    }
}

} // verus!
