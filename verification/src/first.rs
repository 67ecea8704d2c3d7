//! First person view induced by displacement on screen.
use vstd::prelude::*;
use crate::field::{Scalar, Vec2, Vec3};
use crate::op;

verus! {

/// First person view induced by displacement on screen.
///
/// All methods except [`Self::enabled()`] must be invoked on matching events.
#[derive(Clone, Copy, Debug)]
pub struct First<N> {
    /// Caches captured yaw axis.
    pub ray: Option<Vec3<N>>,
}

impl<N: Scalar> Default for First<N> {
    fn default() -> (first: Self)
        ensures
            first.ray is None,
    {
        First { ray: None }
    }
}

/// `radius` is half of the larger component of `max`, and pitch and yaw are the y- and the
/// x-component of `vec` over that radius.
pub open spec fn is_angles<N: Scalar>(vec: Vec2<N>, max: Vec2<N>, pitch: N, yaw: N) -> bool {
    exists|most: N, half: N, radius: N|
        op::max(max.x, max.y, most) && op::half(half) && op::times(most, half, radius) && op::over(
            vec.y,
            radius,
            pitch,
        ) && op::over(vec.x, radius, yaw)
}

impl<N: Scalar> First<N> {
    /// Captures current yaw axis when entering first person view.
    pub fn capture(&mut self, yaw_axis: Vec3<N>)
        ensures
            final(self).ray == Some(yaw_axis),
    {
        self.ray = Some(yaw_axis);
    }

    /// Computes pitch and yaw from cursor/finger displacement vector in screen space.
    ///
    /// Carries cursor/finger displacements to arcs of the same length on great circles of an
    /// eye-centered trackball with radius of maximum of half the screen's width and height.
    /// Returns pitch, yaw and the captured yaw axis, or `None` unless an axis is captured.
    pub fn compute(&mut self, vec: &Vec2<N>, max: &Vec2<N>) -> (angles: Option<(N, N, Vec3<N>)>)
        ensures
            *final(self) == *old(self),
            angles is Some <==> old(self).ray is Some,
            angles matches Some((pitch, yaw, axis)) ==> Some(axis) == old(self).ray && is_angles(
                *vec,
                *max,
                pitch,
                yaw,
            ),
    {
        match self.ray {
            Some(ray) => {
                let most = max.x.max(max.y);
                let half = N::half();
                let radius = most.times(half);
                let pitch = vec.y.over(radius);
                let yaw = vec.x.over(radius);
                assert(op::max(max.x, max.y, most) && op::half(half) && op::times(
                    most,
                    half,
                    radius,
                ) && op::over(vec.y, radius, pitch) && op::over(vec.x, radius, yaw));
                Some((pitch, yaw, ray))
            },
            None => None,
        }
    }

    /// Discards captured yaw axis when leaving first person view.
    pub fn discard(&mut self)
        ensures
            final(self).ray is None,
    {
        self.ray = None;
    }

    /// Whether a yaw axis has been captured.
    pub fn enabled(&self) -> (enabled: bool)
        ensures
            enabled == self.ray is Some,
    {
        self.ray.is_some()
    }
}

} // verus!
