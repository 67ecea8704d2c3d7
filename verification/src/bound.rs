//! Orthogonal boundary conditions.
use vstd::prelude::*;
use crate::clamp::{is_compute, lemma_clamped_passes, Probes};
use crate::delta::{lemma_transform_is_function, Delta};
use crate::scope::Scope;
use crate::field::{Iso3, Scalar, Vec3};
use crate::frame::{is_x_axis, is_y_axis, is_z_axis, origin, x_axis, y_axis, z_axis, Frame};
use crate::op;
use crate::plane::Plane;

verus! {

/// Orthogonal boundary conditions.
#[derive(Clone, Copy, Debug)]
pub struct Bound<N> {
    /// Isometry in world space of bound inversely transforming target and eye positions.
    pub transform: Iso3<N>,
    /// Minimum components of target position in world space. Default splats the smallest scalar.
    pub min_target: Vec3<N>,
    /// Maximum components of target position in world space. Default splats the largest scalar.
    pub max_target: Vec3<N>,
    /// Minimum components of eye position in world space. Default splats the smallest scalar.
    pub min_eye: Vec3<N>,
    /// Maximum components of eye position in world space. Default splats the largest scalar.
    pub max_eye: Vec3<N>,
    /// Minimum components of up axis in world space following yaw. Default splats the smallest
    /// scalar.
    pub min_up: Vec3<N>,
    /// Maximum components of up axis in world space following yaw. Default splats the largest
    /// scalar.
    pub max_up: Vec3<N>,
    /// Minimum distance of eye from target. Default is zero.
    pub min_distance: N,
    /// Maximum distance of eye from target. Default is the largest scalar.
    pub max_distance: N,
    /// Epsilon allowing clamped delta to more likely pass revalidation.
    ///
    /// Default is the square root of the default tolerance of the scalar.
    pub hysteresis: N,
}

/// Face of a box with the answer to whether a point is beyond it.
#[derive(Clone, Copy, Debug)]
pub struct Probe<N> {
    /// Boundary plane.
    pub face: Plane<N>,
    /// Whether the point exceeds the plane by more than the hysteresis.
    pub beyond: bool,
}

/// The face is the plane at the distance `least` along `axis`, and the point is beyond it if
/// its distance from the plane is greater than `hysteresis`.
pub open spec fn is_below<N: Scalar>(
    axis: Vec3<N>,
    least: N,
    point: Vec3<N>,
    hysteresis: N,
    probe: Probe<N>,
) -> bool {
    Plane::is_new(axis, least, probe.face) && exists|distance: N|
        probe.face.is_distance_from(point, distance) && op::less(hysteresis, distance, probe.beyond)
}

/// The face is the plane at the distance `most` along `axis`, and the point is beyond it if
/// its distance from the plane is less than `inside`, the negated hysteresis.
pub open spec fn is_above<N: Scalar>(
    axis: Vec3<N>,
    most: N,
    point: Vec3<N>,
    inside: N,
    probe: Probe<N>,
) -> bool {
    Plane::is_new(axis, most, probe.face) && exists|distance: N|
        probe.face.is_distance_from(point, distance) && op::less(distance, inside, probe.beyond)
}

/// Face of the first probe that is beyond, if any.
pub open spec fn first_beyond<N>(
    x_min: Probe<N>,
    x_max: Probe<N>,
    y_min: Probe<N>,
    y_max: Probe<N>,
    z_min: Probe<N>,
    z_max: Probe<N>,
) -> Option<Plane<N>> {
    if x_min.beyond {
        Some(x_min.face)
    } else if x_max.beyond {
        Some(x_max.face)
    } else if y_min.beyond {
        Some(y_min.face)
    } else if y_max.beyond {
        Some(y_max.face)
    } else if z_min.beyond {
        Some(z_min.face)
    } else if z_max.beyond {
        Some(z_max.face)
    } else {
        None
    }
}

/// `plane` is the first face that the point is beyond, of the faces at the distances `min`
/// and `max` along the axes `x`, `y` and `z`, asked axis by axis, the minimum before the
/// maximum.
pub open spec fn is_exceeded<N: Scalar>(
    x: Vec3<N>,
    y: Vec3<N>,
    z: Vec3<N>,
    min: Vec3<N>,
    max: Vec3<N>,
    point: Vec3<N>,
    hysteresis: N,
    plane: Option<Plane<N>>,
) -> bool {
    exists|
        inside: N,
        x_min: Probe<N>,
        x_max: Probe<N>,
        y_min: Probe<N>,
        y_max: Probe<N>,
        z_min: Probe<N>,
        z_max: Probe<N>,
    |
        op::negate(hysteresis, inside) && is_below(x, min.x, point, hysteresis, x_min) && is_above(
            x,
            max.x,
            point,
            inside,
            x_max,
        ) && is_below(y, min.y, point, hysteresis, y_min) && is_above(
            y,
            max.y,
            point,
            inside,
            y_max,
        ) && is_below(z, min.z, point, hysteresis, z_min) && is_above(
            z,
            max.z,
            point,
            inside,
            z_max,
        ) && plane == first_beyond(x_min, x_max, y_min, y_max, z_min, z_max)
}

/// Face at the distance `least` along `axis` with the answer to whether `point` is beyond it.
pub fn below<N: Scalar>(axis: Vec3<N>, least: N, point: &Vec3<N>, hysteresis: N) -> (probe: Probe<N>)
    ensures
        is_below(axis, least, *point, hysteresis, probe),
{
    let face = Plane::new(axis, least);
    let distance = face.distance_from(point);
    let beyond = hysteresis.less(distance);
    let probe = Probe { face, beyond };
    assert(probe.face.is_distance_from(*point, distance) && op::less(
        hysteresis,
        distance,
        probe.beyond,
    ));
    probe
}

/// Face at the distance `most` along `axis` with the answer to whether `point` is beyond it,
/// given the negated hysteresis.
pub fn above<N: Scalar>(axis: Vec3<N>, most: N, point: &Vec3<N>, inside: N) -> (probe: Probe<N>)
    ensures
        is_above(axis, most, *point, inside, probe),
{
    let face = Plane::new(axis, most);
    let distance = face.distance_from(point);
    let beyond = distance.less(inside);
    let probe = Probe { face, beyond };
    assert(probe.face.is_distance_from(*point, distance) && op::less(
        distance,
        inside,
        probe.beyond,
    ));
    probe
}

/// Boundary plane of a box that a point exceeds by more than `hysteresis`, if any.
///
/// The box has one face pair per axis, at the signed distances that `min` and `max` give in
/// their `x`, `y` and `z` components for the axes `x`, `y` and `z`. The faces are asked axis
/// by axis, the minimum before the maximum, and the first exceeded one is returned.
pub fn exceeded<N: Scalar>(
    x: Vec3<N>,
    y: Vec3<N>,
    z: Vec3<N>,
    min: &Vec3<N>,
    max: &Vec3<N>,
    point: &Vec3<N>,
    hysteresis: N,
) -> (plane: Option<Plane<N>>)
    ensures
        is_exceeded(x, y, z, *min, *max, *point, hysteresis, plane),
{
    let inside = hysteresis.negate();
    let x_min = below(x, min.x, point, hysteresis);
    let x_max = above(x, max.x, point, inside);
    let y_min = below(y, min.y, point, hysteresis);
    let y_max = above(y, max.y, point, inside);
    let z_min = below(z, min.z, point, hysteresis);
    let z_max = above(z, max.z, point, inside);
    let plane = if x_min.beyond {
        Some(x_min.face)
    } else if x_max.beyond {
        Some(x_max.face)
    } else if y_min.beyond {
        Some(y_min.face)
    } else if y_max.beyond {
        Some(y_max.face)
    } else if z_min.beyond {
        Some(z_min.face)
    } else if z_max.beyond {
        Some(z_max.face)
    } else {
        None
    };
    assert(op::negate(hysteresis, inside) && is_below(x, min.x, *point, hysteresis, x_min)
        && is_above(x, max.x, *point, inside, x_max) && is_below(
        y,
        min.y,
        *point,
        hysteresis,
        y_min,
    ) && is_above(y, max.y, *point, inside, y_max) && is_below(
        z,
        min.z,
        *point,
        hysteresis,
        z_min,
    ) && is_above(z, max.z, *point, inside, z_max) && plane == first_beyond(
        x_min,
        x_max,
        y_min,
        y_max,
        z_min,
        z_max,
    ));
    plane
}

impl<N: Scalar> Default for Bound<N> {
    fn default() -> (bound: Self)
        ensures
            op::min_value(bound.min_target.x),
            op::max_value(bound.max_distance),
            op::zero(bound.min_distance),
            bound.min_target == (Vec3 {
                x: bound.min_target.x,
                y: bound.min_target.x,
                z: bound.min_target.x,
            }),
            bound.max_target == (Vec3 {
                x: bound.max_distance,
                y: bound.max_distance,
                z: bound.max_distance,
            }),
            bound.min_eye == bound.min_target,
            bound.min_up == bound.min_target,
            bound.max_eye == bound.max_target,
            bound.max_up == bound.max_target,
            op::rot_identity(bound.transform.rot),
            crate::frame::is_origin(bound.transform.vec),
            exists|epsilon: N| op::default_epsilon(epsilon) && op::sqrt(epsilon, bound.hysteresis),
    {
        let min = N::min_value();
        let max = N::max_value();
        let epsilon = N::default_epsilon();
        let hysteresis = epsilon.sqrt();
        assert(op::default_epsilon(epsilon) && op::sqrt(epsilon, hysteresis));
        Bound {
            transform: Iso3 { rot: N::rot_identity(), vec: origin() },
            hysteresis,
            min_target: Vec3 { x: min, y: min, z: min },
            max_target: Vec3 { x: max, y: max, z: max },
            min_eye: Vec3 { x: min, y: min, z: min },
            max_eye: Vec3 { x: max, y: max, z: max },
            min_up: Vec3 { x: min, y: min, z: min },
            max_up: Vec3 { x: max, y: max, z: max },
            min_distance: N::zero(),
            max_distance: max,
        }
    }
}

impl<N: Scalar> Bound<N> {
    /// `local` is the point in the space of the box: the point under the inverse isometry.
    pub open spec fn is_local(self, point: Vec3<N>, local: Vec3<N>) -> bool {
        exists|back: Iso3<N>|
            op::iso_inverse(self.transform, back) && op::iso_transform_point(back, point, local)
    }

    /// `plane` is the first face of the box from `min` to `max` along the coordinate axes
    /// that `point` is beyond.
    pub open spec fn is_boxed(
        self,
        min: Vec3<N>,
        max: Vec3<N>,
        point: Vec3<N>,
        plane: Option<Plane<N>>,
    ) -> bool {
        exists|x: Vec3<N>, y: Vec3<N>, z: Vec3<N>|
            is_x_axis(x) && is_y_axis(y) && is_z_axis(z) && is_exceeded(
                x,
                y,
                z,
                min,
                max,
                point,
                self.hysteresis,
                plane,
            )
    }

    /// `plane` is the first face of the target box that the target is beyond.
    pub open spec fn is_target(self, frame: Frame<N>, plane: Option<Plane<N>>) -> bool {
        exists|local: Vec3<N>|
            self.is_local(frame.pos, local) && self.is_boxed(
                self.min_target,
                self.max_target,
                local,
                plane,
            )
    }

    /// `short` tells whether the least distance exceeds the distance of the frame by more
    /// than the hysteresis.
    pub open spec fn is_short(self, frame: Frame<N>, short: bool) -> bool {
        exists|gap: N|
            op::minus(self.min_distance, frame.zat, gap) && op::less(self.hysteresis, gap, short)
    }

    /// `long` tells whether the distance of the frame exceeds the largest distance by more
    /// than the hysteresis.
    pub open spec fn is_long(self, frame: Frame<N>, long: bool) -> bool {
        exists|gap: N, inside: N|
            op::minus(self.max_distance, frame.zat, gap) && op::negate(self.hysteresis, inside)
                && op::less(gap, inside, long)
    }

    /// `plane` is the plane along the roll axis at the least or the largest distance if the
    /// distance of the frame is short or, else, long, and else the first face of the eye box
    /// that the eye is beyond.
    pub open spec fn is_eye(self, frame: Frame<N>, plane: Option<Plane<N>>) -> bool {
        exists|short: bool|
            self.is_short(frame, short) && if short {
                self.is_distant(frame, self.min_distance, plane)
            } else {
                exists|long: bool|
                    self.is_long(frame, long) && if long {
                        self.is_distant(frame, self.max_distance, plane)
                    } else {
                        exists|eye: Vec3<N>, local: Vec3<N>|
                            frame.is_eye(eye) && self.is_local(eye, local) && self.is_boxed(
                                self.min_eye,
                                self.max_eye,
                                local,
                                plane,
                            )
                    }
            }
    }

    /// `plane` is the plane along the roll axis at the given distance.
    pub open spec fn is_distant(self, frame: Frame<N>, distance: N, plane: Option<Plane<N>>) -> bool {
        exists|axis: Vec3<N>, face: Plane<N>|
            frame.is_roll_axis(axis) && Plane::is_new(axis, distance, face) && plane == Some(face)
    }

    /// `plane` is the first face that the up axis following the yaw of the frame is beyond,
    /// of the box whose axes follow that yaw inversely.
    pub open spec fn is_up(self, frame: Frame<N>, plane: Option<Plane<N>>) -> bool {
        exists|
            roll: Vec3<N>,
            angle: N,
            around: Vec3<N>,
            yaw: crate::field::Quat<N>,
            axis: Vec3<N>,
            up: Vec3<N>,
            back: crate::field::Quat<N>,
        |
            frame.is_roll_axis(roll) && op::atan2(roll.x, roll.z, angle) && is_y_axis(around)
                && op::rot_from_axis_angle(around, angle, yaw) && frame.is_yaw_axis(axis)
                && op::rotate(yaw, axis, up) && op::rot_inverse(yaw, back) && self.is_turned(
                back,
                up,
                plane,
            )
    }

    /// `plane` is the first face that `up` is beyond, of the box whose axes are the
    /// coordinate axes rotated by `back`.
    pub open spec fn is_turned(
        self,
        back: crate::field::Quat<N>,
        up: Vec3<N>,
        plane: Option<Plane<N>>,
    ) -> bool {
        exists|x: Vec3<N>, y: Vec3<N>, z: Vec3<N>, u: Vec3<N>, v: Vec3<N>, w: Vec3<N>|
            is_x_axis(x) && is_y_axis(y) && is_z_axis(z) && op::rotate(back, x, u) && op::rotate(
                back,
                y,
                v,
            ) && op::rotate(back, z, w) && is_exceeded(
                u,
                v,
                w,
                self.min_up,
                self.max_up,
                up,
                self.hysteresis,
                plane,
            )
    }
}

impl<N: Scalar> Probes<N> for Bound<N> {
    /// Using lower loop limit for flat boundary conditions.
    fn loops(&self) -> (loops: usize)
        ensures
            loops == 10,
    {
        10
    }

    /// Find any boundary plane exceeded by target position.
    fn target(&self, frame: &Frame<N>) -> (plane: Option<Plane<N>>)
        ensures
            self.is_target(*frame, plane),
    {
        let back = N::iso_inverse(self.transform);
        let local = N::iso_transform_point(back, frame.pos);
        assert(self.is_local(frame.pos, local)) by {
            assert(op::iso_inverse(self.transform, back) && op::iso_transform_point(
                back,
                frame.pos,
                local,
            ));
        }
        exceeded(
            x_axis(),
            y_axis(),
            z_axis(),
            &self.min_target,
            &self.max_target,
            &local,
            self.hysteresis,
        )
    }

    /// Find any boundary plane exceeded by eye position.
    ///
    /// The distance of the eye from the target is asked before the position of the eye.
    fn eye(&self, frame: &Frame<N>) -> (plane: Option<Plane<N>>)
        ensures
            self.is_eye(*frame, plane),
    {
        let distance = frame.distance();
        let gap = self.min_distance.minus(distance);
        let short = self.hysteresis.less(gap);
        assert(self.is_short(*frame, short)) by {
            assert(op::minus(self.min_distance, frame.zat, gap) && op::less(
                self.hysteresis,
                gap,
                short,
            ));
        }
        if short {
            let face = Plane::new(frame.roll_axis(), self.min_distance);
            assert(self.is_distant(*frame, self.min_distance, Some(face)));
            return Some(face);
        }
        let gap = self.max_distance.minus(distance);
        let inside = self.hysteresis.negate();
        let long = gap.less(inside);
        assert(self.is_long(*frame, long)) by {
            assert(op::minus(self.max_distance, frame.zat, gap) && op::negate(
                self.hysteresis,
                inside,
            ) && op::less(gap, inside, long));
        }
        if long {
            let face = Plane::new(frame.roll_axis(), self.max_distance);
            assert(self.is_distant(*frame, self.max_distance, Some(face)));
            return Some(face);
        }
        let eye = frame.eye();
        let back = N::iso_inverse(self.transform);
        let local = N::iso_transform_point(back, eye);
        assert(self.is_local(eye, local)) by {
            assert(op::iso_inverse(self.transform, back) && op::iso_transform_point(
                back,
                eye,
                local,
            ));
        }
        let plane = exceeded(
            x_axis(),
            y_axis(),
            z_axis(),
            &self.min_eye,
            &self.max_eye,
            &local,
            self.hysteresis,
        );
        assert(self.is_boxed(self.min_eye, self.max_eye, local, plane));
        plane
    }

    /// Find any boundary plane exceeded by up position.
    fn up(&self, frame: &Frame<N>) -> (plane: Option<Plane<N>>)
        ensures
            self.is_up(*frame, plane),
    {
        let roll = frame.roll_axis();
        let angle = roll.x.atan2(roll.z);
        let around = frame.local_yaw_axis();
        let yaw = N::rot_from_axis_angle(around, angle);
        let axis = frame.yaw_axis();
        let up = N::rotate(yaw, axis);
        let back = N::rot_inverse(yaw);
        let x = x_axis();
        let y = y_axis();
        let z = z_axis();
        let u = N::rotate(back, x);
        let v = N::rotate(back, y);
        let w = N::rotate(back, z);
        let plane = exceeded(u, v, w, &self.min_up, &self.max_up, &up, self.hysteresis);
        assert(self.is_turned(back, up, plane)) by {
            assert(op::rotate(back, x, u) && op::rotate(back, y, v) && op::rotate(back, z, w));
        }
        assert(op::atan2(roll.x, roll.z, angle) && op::rot_from_axis_angle(around, angle, yaw)
            && op::rotate(yaw, axis, up) && op::rot_inverse(yaw, back));
        plane
    }
}

/// Over a field whose operations are functions, the probes of a bound are functions.
pub proof fn lemma_probes_are_functions<N: Scalar>(bound: &Bound<N>)
    requires
        op::is_function::<N>(),
    ensures
        crate::clamp::is_function(bound),
{
}

/// Gliding ends inside: over a field whose operations are functions, a slide that a bound
/// clamps before its loops run out makes a frame of the initial one whose target and eye
/// exceed no boundary, and whose up axis exceeds none if that of the initial frame exceeds
/// none.
pub proof fn lemma_clamped_slide_is_inside<N: Scalar>(
    bound: &Bound<N>,
    frame: Frame<N>,
    scope: Scope<N>,
    delta: Delta<N>,
    least: Delta<N>,
    used: usize,
    landed: Frame<N>,
    target: Option<Plane<N>>,
    eye: Option<Plane<N>>,
    up: Option<Plane<N>>,
)
    requires
        op::is_function::<N>(),
        delta is Slide,
        is_compute(bound, frame, scope, delta, Some((least, used))),
        used < 10,
        least.is_transform(frame, landed),
        bound.is_target(landed, target),
        bound.is_eye(landed, eye),
        bound.is_up(landed, up),
    ensures
        least is Slide,
        target is None,
        eye is None,
        bound.is_up(frame, None) ==> up is None,
{
    lemma_clamped_passes(bound, frame, scope, delta, least, used);
    let limit = choose|limit: usize|
        call_ensures(Bound::<N>::loops, (bound,), limit) && used <= limit && (used < limit
            ==> crate::clamp::passes(bound, frame, delta, least));
    assert(limit == 10);
    let on = choose|moved: Frame<N>|
        least.is_transform(frame, moved) && call_ensures(
            Bound::<N>::target,
            (bound, &moved),
            None::<Plane<N>>,
        );
    lemma_transform_is_function(least, frame, on, landed);
    let at = choose|moved: Frame<N>|
        least.is_transform(frame, moved) && call_ensures(
            Bound::<N>::eye,
            (bound, &moved),
            None::<Plane<N>>,
        );
    lemma_transform_is_function(least, frame, at, landed);
}

} // verus!
