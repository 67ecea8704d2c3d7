//! Observer frame wrt camera eye and target.
use vstd::prelude::*;
use crate::field::{
    cast_quat, cast_vec3, is_cast, is_cast_quat, is_cast_vec3, Cast, Iso3, Quat, Scalar, Vec3,
};
use crate::op;

verus! {

/// Frame wrt camera eye and target.
#[derive(Clone, Copy, Debug)]
pub struct Frame<N> {
    /// Target position in world space.
    pub pos: Vec3<N>,
    /// Eye rotation from camera to world space around target.
    pub rot: Quat<N>,
    /// Target distance from eye.
    pub zat: N,
}

/// `axis` has the components one, zero and zero.
pub open spec fn is_x_axis<N: Scalar>(axis: Vec3<N>) -> bool {
    op::one(axis.x) && op::zero(axis.y) && op::zero(axis.z)
}

/// `axis` has the components zero, one and zero.
pub open spec fn is_y_axis<N: Scalar>(axis: Vec3<N>) -> bool {
    op::zero(axis.x) && op::one(axis.y) && op::zero(axis.z)
}

/// `axis` has the components zero, zero and one.
pub open spec fn is_z_axis<N: Scalar>(axis: Vec3<N>) -> bool {
    op::zero(axis.x) && op::zero(axis.y) && op::one(axis.z)
}

/// All components of `point` are zero.
pub open spec fn is_origin<N: Scalar>(point: Vec3<N>) -> bool {
    op::zero(point.x) && op::zero(point.y) && op::zero(point.z)
}

/// `equal` tells whether all components of both vectors compare equal.
pub open spec fn is_same_vec<N: Scalar>(a: Vec3<N>, b: Vec3<N>, equal: bool) -> bool {
    exists|x: bool, y: bool, z: bool|
        op::same(a.x, b.x, x) && op::same(a.y, b.y, y) && op::same(a.z, b.z, z) && equal == (x
            && y && z)
}

/// Positive x-axis.
pub fn x_axis<N: Scalar>() -> (axis: Vec3<N>)
    ensures
        is_x_axis(axis),
{
    Vec3 { x: N::one(), y: N::zero(), z: N::zero() }
}

/// Positive y-axis.
pub fn y_axis<N: Scalar>() -> (axis: Vec3<N>)
    ensures
        is_y_axis(axis),
{
    Vec3 { x: N::zero(), y: N::one(), z: N::zero() }
}

/// Positive z-axis.
pub fn z_axis<N: Scalar>() -> (axis: Vec3<N>)
    ensures
        is_z_axis(axis),
{
    Vec3 { x: N::zero(), y: N::zero(), z: N::one() }
}

/// Coordinate origin.
pub fn origin<N: Scalar>() -> (point: Vec3<N>)
    ensures
        is_origin(point),
{
    Vec3 { x: N::zero(), y: N::zero(), z: N::zero() }
}

/// Whether all components of both vectors compare equal.
pub fn same_vec<N: Scalar>(a: &Vec3<N>, b: &Vec3<N>) -> (equal: bool)
    ensures
        is_same_vec(*a, *b, equal),
{
    let x = a.x.same(b.x);
    let y = a.y.same(b.y);
    let z = a.z.same(b.z);
    x && y && z
}

impl<N: Scalar> Frame<N> {
    /// `frame` has the given target, the rotation facing from the target towards the eye
    /// with the given up direction, and the distance between eye and target.
    pub open spec fn is_look_at(target: Vec3<N>, eye: Vec3<N>, up: Vec3<N>, frame: Self) -> bool {
        frame.pos == target && exists|dir: Vec3<N>, back: Vec3<N>|
            op::vec_sub(target, eye, dir) && op::vec_neg(dir, back) && op::rot_face_towards(
                back,
                up,
                frame.rot,
            ) && op::norm(dir, frame.zat)
    }

    /// `eye` is `pos + rot * z * zat` with the positive z-axis `z`.
    pub open spec fn is_eye(self, eye: Vec3<N>) -> bool {
        exists|axis: Vec3<N>, ray: Vec3<N>, arm: Vec3<N>|
            is_z_axis(axis) && op::rotate(self.rot, axis, ray) && op::vec_scale(ray, self.zat, arm)
                && op::vec_add(self.pos, arm, eye)
    }

    /// `after` has the given target, the same rotation, and the distance of the target from
    /// the former eye.
    pub open spec fn is_set_target(self, target: Vec3<N>, after: Self) -> bool {
        after.pos == target && after.rot == self.rot && exists|eye: Vec3<N>, arm: Vec3<N>|
            self.is_eye(eye) && op::vec_sub(target, eye, arm) && op::norm(arm, after.zat)
    }

    /// `after` has the distance `zat * rat` and is the same otherwise.
    pub open spec fn is_scale(self, rat: N, after: Self) -> bool {
        after.pos == self.pos && after.rot == self.rot && op::times(self.zat, rat, after.zat)
    }

    /// `after` has the target `pos + rot * vec` and is the same otherwise.
    pub open spec fn is_local_slide(self, vec: Vec3<N>, after: Self) -> bool {
        after.rot == self.rot && after.zat == self.zat && exists|step: Vec3<N>|
            op::rotate(self.rot, vec, step) && op::vec_add(self.pos, step, after.pos)
    }

    /// `after` has the target `pos + vec` and is the same otherwise.
    pub open spec fn is_slide(self, vec: Vec3<N>, after: Self) -> bool {
        after.rot == self.rot && after.zat == self.zat && op::vec_add(self.pos, vec, after.pos)
    }

    /// `after` is slid by `pos - pos * rat` in camera space and then scaled by `rat`.
    pub open spec fn is_local_scale_around(self, rat: N, pos: Vec3<N>, after: Self) -> bool {
        exists|scaled: Vec3<N>, vec: Vec3<N>, slid: Self|
            op::vec_scale(pos, rat, scaled) && op::vec_sub(pos, scaled, vec) && self.is_local_slide(
                vec,
                slid,
            ) && slid.is_scale(rat, after)
    }

    /// `after` is slid by `p - p * rat` in world space with `p` as `pos` seen from the target,
    /// and then scaled by `rat`.
    pub open spec fn is_scale_around(self, rat: N, pos: Vec3<N>, after: Self) -> bool {
        exists|seen: Vec3<N>, scaled: Vec3<N>, vec: Vec3<N>, slid: Self|
            op::vec_sub(pos, self.pos, seen) && op::vec_scale(seen, rat, scaled) && op::vec_sub(
                seen,
                scaled,
                vec,
            ) && self.is_slide(vec, slid) && slid.is_scale(rat, after)
    }

    /// `after` has the rotation `self.rot * rot` and is the same otherwise.
    pub open spec fn is_local_orbit(self, rot: Quat<N>, after: Self) -> bool {
        after.pos == self.pos && after.zat == self.zat && op::rot_mul(self.rot, rot, after.rot)
    }

    /// `after` has the rotation `rot * self.rot` and is the same otherwise.
    pub open spec fn is_orbit(self, rot: Quat<N>, after: Self) -> bool {
        after.pos == self.pos && after.zat == self.zat && op::rot_mul(rot, self.rot, after.rot)
    }

    /// `after` is slid by `pos - rot * pos` in camera space and then rotated in camera space.
    pub open spec fn is_local_orbit_around(self, rot: Quat<N>, pos: Vec3<N>, after: Self) -> bool {
        exists|image: Vec3<N>, vec: Vec3<N>, slid: Self|
            op::rotate(rot, pos, image) && op::vec_sub(pos, image, vec) && self.is_local_slide(
                vec,
                slid,
            ) && slid.is_local_orbit(rot, after)
    }

    /// `after` is slid by `p - rot * p` in world space with `p` as `pos` seen from the
    /// target, and then rotated in world space.
    pub open spec fn is_orbit_around(self, rot: Quat<N>, pos: Vec3<N>, after: Self) -> bool {
        exists|seen: Vec3<N>, image: Vec3<N>, vec: Vec3<N>, slid: Self|
            op::vec_sub(pos, self.pos, seen) && op::rotate(rot, seen, image) && op::vec_sub(
                seen,
                image,
                vec,
            ) && self.is_slide(vec, slid) && slid.is_orbit(rot, after)
    }

    /// `after` is orbited around the eye by the pitch around the pitch axis followed by the
    /// yaw around the given axis.
    pub open spec fn is_look_around(self, pitch: N, yaw: N, yaw_axis: Vec3<N>, after: Self) -> bool {
        exists|axis: Vec3<N>, up: Quat<N>, aside: Quat<N>, rot: Quat<N>, eye: Vec3<N>|
            self.is_pitch_axis(axis) && op::rot_from_axis_angle(axis, pitch, up)
                && op::rot_from_axis_angle(yaw_axis, yaw, aside) && op::rot_mul(aside, up, rot)
                && self.is_eye(eye) && self.is_orbit_around(rot, eye, after)
    }

    /// `axis` is the rotated positive x-axis.
    pub open spec fn is_pitch_axis(self, axis: Vec3<N>) -> bool {
        exists|local: Vec3<N>| is_x_axis(local) && op::rotate(self.rot, local, axis)
    }

    /// `axis` is the rotated positive y-axis.
    pub open spec fn is_yaw_axis(self, axis: Vec3<N>) -> bool {
        exists|local: Vec3<N>| is_y_axis(local) && op::rotate(self.rot, local, axis)
    }

    /// `axis` is the rotated positive z-axis.
    pub open spec fn is_roll_axis(self, axis: Vec3<N>) -> bool {
        exists|local: Vec3<N>| is_z_axis(local) && op::rotate(self.rot, local, axis)
    }

    /// `frame` has the interpolated rotation `rot`, the interpolated target, and the distance
    /// `zat * (1 - t) + other.zat * t`.
    pub open spec fn is_lerp_slerp(self, other: Self, t: N, rot: Quat<N>, frame: Self) -> bool {
        frame.rot == rot && op::vec_lerp(self.pos, other.pos, t, frame.pos) && exists|
            one: N,
            rest: N,
            near: N,
            far: N,
        |
            op::one(one) && op::minus(one, t, rest) && op::times(self.zat, rest, near)
                && op::times(other.zat, t, far) && op::plus(near, far, frame.zat)
    }

    /// `iso` has the inverse rotation and the translation `-(rot⁻¹ * pos + z * zat)` with the
    /// positive z-axis `z`.
    pub open spec fn is_inverse_view(self, iso: Iso3<N>) -> bool {
        op::rot_inverse(self.rot, iso.rot) && exists|
            turned: Vec3<N>,
            axis: Vec3<N>,
            arm: Vec3<N>,
            eye: Vec3<N>,
        |
            op::rotate(iso.rot, self.pos, turned) && is_z_axis(axis) && op::vec_scale(
                axis,
                self.zat,
                arm,
            ) && op::vec_add(turned, arm, eye) && op::vec_neg(eye, iso.vec)
    }

    /// `equal` tells whether targets and distances compare equal and the rotations are the
    /// same.
    pub open spec fn is_same(self, other: Self, equal: bool) -> bool {
        exists|pos: bool, rot: bool, zat: bool|
            is_same_vec(self.pos, other.pos, pos) && op::rot_same(self.rot, other.rot, rot)
                && op::same(self.zat, other.zat, zat) && equal == (pos && rot && zat)
    }

    /// `close` tells whether targets, rotations and distances are within `epsilon`.
    pub open spec fn is_abs_diff_eq(self, other: Self, epsilon: N, close: bool) -> bool {
        exists|x: bool, y: bool, z: bool, rot: bool, zat: bool|
            op::abs_diff_eq(self.pos.x, other.pos.x, epsilon, x) && op::abs_diff_eq(
                self.pos.y,
                other.pos.y,
                epsilon,
                y,
            ) && op::abs_diff_eq(self.pos.z, other.pos.z, epsilon, z) && op::rot_abs_diff_eq(
                self.rot,
                other.rot,
                epsilon,
                rot,
            ) && op::abs_diff_eq(self.zat, other.zat, epsilon, zat) && close == (x && y && z
                && rot && zat)
    }

    /// `close` tells whether targets, rotations and distances are within `epsilon` or relatively within `max_relative`.
    pub open spec fn is_relative_eq(self, other: Self, epsilon: N, max_relative: N, close: bool) -> bool {
        exists|x: bool, y: bool, z: bool, zat: bool, rot: bool|
            op::relative_eq(self.pos.x, other.pos.x, epsilon, max_relative, x) && op::relative_eq(self.pos.y, other.pos.y, epsilon, max_relative, y) && op::relative_eq(self.pos.z, other.pos.z, epsilon, max_relative, z) && op::relative_eq(self.zat, other.zat, epsilon, max_relative, zat) && op::rot_relative_eq(self.rot, other.rot, epsilon, max_relative, rot) && close == (x && y && z && zat && rot)
    }

    /// `close` tells whether targets, rotations and distances are within `epsilon` or within `max_ulps` units in the last place.
    pub open spec fn is_ulps_eq(self, other: Self, epsilon: N, max_ulps: u32, close: bool) -> bool {
        exists|x: bool, y: bool, z: bool, zat: bool, rot: bool|
            op::ulps_eq(self.pos.x, other.pos.x, epsilon, max_ulps, x) && op::ulps_eq(self.pos.y, other.pos.y, epsilon, max_ulps, y) && op::ulps_eq(self.pos.z, other.pos.z, epsilon, max_ulps, z) && op::ulps_eq(self.zat, other.zat, epsilon, max_ulps, zat) && op::rot_ulps_eq(self.rot, other.rot, epsilon, max_ulps, rot) && close == (x && y && z && zat && rot)
    }

    /// Sets eye position inclusive its roll attitude and target position in world space.
    pub fn look_at(target: Vec3<N>, eye: &Vec3<N>, up: &Vec3<N>) -> (frame: Self)
        ensures
            Self::is_look_at(target, *eye, *up, frame),
    {
        let dir = N::vec_sub(target, *eye);
        Frame { pos: target, rot: N::rot_face_towards(N::vec_neg(dir), *up), zat: N::norm(dir) }
    }

    /// Eye position in world space.
    pub fn eye(&self) -> (eye: Vec3<N>)
        ensures
            self.is_eye(eye),
    {
        N::vec_add(self.pos, N::vec_scale(N::rotate(self.rot, z_axis()), self.zat))
    }

    /// Sets eye position inclusive its roll attitude in world space preserving target position.
    pub fn set_eye(&mut self, eye: &Vec3<N>, up: &Vec3<N>)
        ensures
            Self::is_look_at(old(self).pos, *eye, *up, *final(self)),
    {
        *self = Self::look_at(self.pos, eye, up);
    }

    /// Target position in world space.
    pub fn target(&self) -> (target: &Vec3<N>)
        ensures
            *target == self.pos,
    {
        &self.pos
    }

    /// Sets target position in world space preserving the rotation of the eye and recomputing
    /// its distance, which preserves the eye position for targets on the roll axis.
    pub fn set_target(&mut self, target: Vec3<N>)
        ensures
            old(self).is_set_target(target, *final(self)),
    {
        let eye = self.eye();
        self.pos = target;
        self.zat = N::norm(N::vec_sub(self.pos, eye));
    }

    /// Distance between eye and target.
    pub fn distance(&self) -> (zat: N)
        ensures
            zat == self.zat,
    {
        self.zat
    }

    /// Sets distance between eye and target preserving target position.
    pub fn set_distance(&mut self, zat: N)
        ensures
            *final(self) == (Frame { zat, ..*old(self) }),
    {
        self.zat = zat;
    }

    /// Scales distance between eye and target by ratio preserving target position.
    pub fn scale(&mut self, rat: N)
        ensures
            old(self).is_scale(rat, *final(self)),
    {
        self.zat = self.zat.times(rat);
    }

    /// Scales distance between eye and point in camera space by ratio preserving target position.
    pub fn local_scale_around(&mut self, rat: N, pos: &Vec3<N>)
        ensures
            old(self).is_local_scale_around(rat, *pos, *final(self)),
    {
        self.local_slide(&N::vec_sub(*pos, N::vec_scale(*pos, rat)));
        self.scale(rat);
    }

    /// Scales distance between eye and point in world space by ratio preserving target position.
    pub fn scale_around(&mut self, rat: N, pos: &Vec3<N>)
        ensures
            old(self).is_scale_around(rat, *pos, *final(self)),
    {
        let pos = N::vec_sub(*pos, self.pos);
        self.slide(&N::vec_sub(pos, N::vec_scale(pos, rat)));
        self.scale(rat);
    }

    /// Slides camera eye and target by vector in camera space.
    pub fn local_slide(&mut self, vec: &Vec3<N>)
        ensures
            old(self).is_local_slide(*vec, *final(self)),
    {
        self.pos = N::vec_add(self.pos, N::rotate(self.rot, *vec));
    }

    /// Slides camera eye and target by vector in world space.
    pub fn slide(&mut self, vec: &Vec3<N>)
        ensures
            old(self).is_slide(*vec, *final(self)),
    {
        self.pos = N::vec_add(self.pos, *vec);
    }

    /// Orbits eye by rotation in camera space around target.
    pub fn local_orbit(&mut self, rot: &Quat<N>)
        ensures
            old(self).is_local_orbit(*rot, *final(self)),
    {
        self.rot = N::rot_mul(self.rot, *rot);
    }

    /// Orbits eye by rotation in camera space around point in camera space.
    ///
    /// Slides by the difference of the point and its image under the rotation, then rotates.
    pub fn local_orbit_around(&mut self, rot: &Quat<N>, pos: &Vec3<N>)
        ensures
            old(self).is_local_orbit_around(*rot, *pos, *final(self)),
    {
        self.local_slide(&N::vec_sub(*pos, N::rotate(*rot, *pos)));
        self.local_orbit(rot);
    }

    /// Orbits eye by rotation in world space around target.
    pub fn orbit(&mut self, rot: &Quat<N>)
        ensures
            old(self).is_orbit(*rot, *final(self)),
    {
        self.rot = N::rot_mul(*rot, self.rot);
    }

    /// Orbits eye by rotation in world space around point in world space.
    pub fn orbit_around(&mut self, rot: &Quat<N>, pos: &Vec3<N>)
        ensures
            old(self).is_orbit_around(*rot, *pos, *final(self)),
    {
        let pos = N::vec_sub(*pos, self.pos);
        self.slide(&N::vec_sub(pos, N::rotate(*rot, pos)));
        self.orbit(rot);
    }

    /// Orbits target around eye by pitch and yaw preserving roll attitude aka first person view.
    ///
    /// Use fixed [`Self::yaw_axis()`] by capturing it when entering first person view.
    pub fn look_around(&mut self, pitch: N, yaw: N, yaw_axis: &Vec3<N>)
        ensures
            old(self).is_look_around(pitch, yaw, *yaw_axis, *final(self)),
    {
        let pitch = N::rot_from_axis_angle(self.pitch_axis(), pitch);
        let yaw = N::rot_from_axis_angle(*yaw_axis, yaw);
        let eye = self.eye();
        self.orbit_around(&N::rot_mul(yaw, pitch), &eye);
    }

    /// Positive x-axis in camera space pointing from left to right.
    pub fn local_pitch_axis(&self) -> (axis: Vec3<N>)
        ensures
            is_x_axis(axis),
    {
        x_axis()
    }

    /// Positive y-axis in camera space pointing from bottom to top.
    pub fn local_yaw_axis(&self) -> (axis: Vec3<N>)
        ensures
            is_y_axis(axis),
    {
        y_axis()
    }

    /// Positive z-axis in camera space pointing from back to front.
    pub fn local_roll_axis(&self) -> (axis: Vec3<N>)
        ensures
            is_z_axis(axis),
    {
        z_axis()
    }

    /// Positive x-axis in world space pointing from left to right.
    pub fn pitch_axis(&self) -> (axis: Vec3<N>)
        ensures
            self.is_pitch_axis(axis),
    {
        N::rotate(self.rot, self.local_pitch_axis())
    }

    /// Positive y-axis in world space pointing from bottom to top.
    pub fn yaw_axis(&self) -> (axis: Vec3<N>)
        ensures
            self.is_yaw_axis(axis),
    {
        N::rotate(self.rot, self.local_yaw_axis())
    }

    /// Positive z-axis in world space pointing from back to front.
    pub fn roll_axis(&self) -> (axis: Vec3<N>)
        ensures
            self.is_roll_axis(axis),
    {
        N::rotate(self.rot, self.local_roll_axis())
    }

    /// Attempts to interpolate between two frames using linear interpolation for the translation
    /// part, and spherical linear interpolation for the rotation part.
    ///
    /// Returns `None` if and only if the rotations cannot be interpolated: `epsilon` is the
    /// value below which the sine of the angle separating both quaternions must be for that.
    pub fn try_lerp_slerp(&self, other: &Self, t: N, epsilon: N) -> (frame: Option<Self>)
        ensures
            exists|rot: Option<Quat<N>>|
                op::rot_try_slerp(self.rot, other.rot, t, epsilon, rot) && match rot {
                    Some(rot) => frame is Some && self.is_lerp_slerp(*other, t, rot, frame->0),
                    None => frame is None,
                },
    {
        let slerp = N::rot_try_slerp(self.rot, other.rot, t, epsilon);
        match slerp {
            Some(rot) => {
                let one = N::one();
                let rest = one.minus(t);
                let near = self.zat.times(rest);
                let far = other.zat.times(t);
                let frame = Frame {
                    pos: N::vec_lerp(self.pos, other.pos, t),
                    rot,
                    zat: near.plus(far),
                };
                assert(op::one(one) && op::minus(one, t, rest) && op::times(self.zat, rest, near)
                    && op::times(other.zat, t, far) && op::plus(near, far, frame.zat));
                Some(frame)
            },
            None => None,
        }
    }

    /// Renormalizes eye rotation and returns its norm.
    pub fn renormalize(&mut self) -> (norm: N)
        ensures
            final(self).pos == old(self).pos,
            final(self).zat == old(self).zat,
            op::rot_renormalize(old(self).rot, (final(self).rot, norm)),
    {
        let (rot, norm) = N::rot_renormalize(self.rot);
        self.rot = rot;
        norm
    }

    /// View transformation from camera to world space.
    pub fn view(&self) -> (iso: Iso3<N>)
        ensures
            iso.rot == self.rot,
            self.is_eye(iso.vec),
    {
        Iso3 { rot: self.rot, vec: self.eye() }
    }

    /// Inverse view transformation from world to camera space.
    ///
    /// Uses less computations than inverting [`Self::view()`].
    pub fn inverse_view(&self) -> (iso: Iso3<N>)
        ensures
            self.is_inverse_view(iso),
    {
        let rot = N::rot_inverse(self.rot);
        let eye = N::vec_add(N::rotate(rot, self.pos), N::vec_scale(z_axis(), self.zat));
        Iso3 { rot, vec: N::vec_neg(eye) }
    }

    /// Whether target and distance of both frames compare equal and both rotations are the same.
    pub fn same(&self, other: &Self) -> (equal: bool)
        ensures
            self.is_same(*other, equal),
    {
        let pos = same_vec(&self.pos, &other.pos);
        let rot = N::rot_same(self.rot, other.rot);
        let zat = self.zat.same(other.zat);
        pos && rot && zat
    }

    /// Whether target, rotation and distance of both frames are within `epsilon` or relatively within `max_relative` in each component.
    pub fn relative_eq(&self, other: &Self, epsilon: N, max_relative: N) -> (close: bool)
        ensures
            self.is_relative_eq(*other, epsilon, max_relative, close),
    {
        let x = self.pos.x.relative_eq(other.pos.x, epsilon, max_relative);
        let y = self.pos.y.relative_eq(other.pos.y, epsilon, max_relative);
        let z = self.pos.z.relative_eq(other.pos.z, epsilon, max_relative);
        let zat = self.zat.relative_eq(other.zat, epsilon, max_relative);
        let rot = N::rot_relative_eq(self.rot, other.rot, epsilon, max_relative);
        assert(op::relative_eq(self.pos.x, other.pos.x, epsilon, max_relative, x) && op::relative_eq(self.pos.y, other.pos.y, epsilon, max_relative, y) && op::relative_eq(self.pos.z, other.pos.z, epsilon, max_relative, z) && op::relative_eq(self.zat, other.zat, epsilon, max_relative, zat) && op::rot_relative_eq(self.rot, other.rot, epsilon, max_relative, rot));
        x && y && z && zat && rot
    }

    /// Whether target, rotation and distance of both frames are within `epsilon` or within `max_ulps` units in the last place in each component.
    pub fn ulps_eq(&self, other: &Self, epsilon: N, max_ulps: u32) -> (close: bool)
        ensures
            self.is_ulps_eq(*other, epsilon, max_ulps, close),
    {
        let x = self.pos.x.ulps_eq(other.pos.x, epsilon, max_ulps);
        let y = self.pos.y.ulps_eq(other.pos.y, epsilon, max_ulps);
        let z = self.pos.z.ulps_eq(other.pos.z, epsilon, max_ulps);
        let zat = self.zat.ulps_eq(other.zat, epsilon, max_ulps);
        let rot = N::rot_ulps_eq(self.rot, other.rot, epsilon, max_ulps);
        assert(op::ulps_eq(self.pos.x, other.pos.x, epsilon, max_ulps, x) && op::ulps_eq(self.pos.y, other.pos.y, epsilon, max_ulps, y) && op::ulps_eq(self.pos.z, other.pos.z, epsilon, max_ulps, z) && op::ulps_eq(self.zat, other.zat, epsilon, max_ulps, zat) && op::rot_ulps_eq(self.rot, other.rot, epsilon, max_ulps, rot));
        x && y && z && zat && rot
    }

    /// Whether target, rotation and distance of both frames differ by at most `epsilon` in
    /// each component.
    pub fn abs_diff_eq(&self, other: &Self, epsilon: N) -> (close: bool)
        ensures
            self.is_abs_diff_eq(*other, epsilon, close),
    {
        let x = self.pos.x.abs_diff_eq(other.pos.x, epsilon);
        let y = self.pos.y.abs_diff_eq(other.pos.y, epsilon);
        let z = self.pos.z.abs_diff_eq(other.pos.z, epsilon);
        let rot = N::rot_abs_diff_eq(self.rot, other.rot, epsilon);
        let zat = self.zat.abs_diff_eq(other.zat, epsilon);
        x && y && z && rot && zat
    }
}

impl<N: Scalar> Default for Frame<N> {
    /// Frame with eye and target at the origin and without rotation.
    fn default() -> (frame: Self)
        ensures
            is_origin(frame.pos),
            op::rot_identity(frame.rot),
            op::zero(frame.zat),
    {
        Frame { pos: origin(), rot: N::rot_identity(), zat: N::zero() }
    }
}

impl<N: Copy> Frame<N> {
    /// `frame` has each component cast.
    pub open spec fn is_cast<M>(self, frame: Frame<M>) -> bool where N: Cast<M> {
        is_cast_vec3(self.pos, frame.pos) && is_cast_quat(self.rot, frame.rot) && is_cast(
            self.zat,
            frame.zat,
        )
    }

    /// Casts components to another type, e.g., between single and double precision.
    pub fn cast<M>(self) -> (frame: Frame<M>) where N: Cast<M>
        ensures
            self.is_cast(frame),
    {
        Frame { pos: cast_vec3(self.pos), rot: cast_quat(self.rot), zat: self.zat.cast() }
    }
}

} // verus!
