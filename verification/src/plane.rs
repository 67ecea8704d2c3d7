//! Plane as unit normal with signed bias.
use vstd::prelude::*;
use crate::field::{cast_vec3, is_cast, is_cast_vec3, Cast, Iso3, Quat, Scalar, Vec3};
use crate::op;

verus! {

/// Plane encoding position with signed bias along unit normal.
///
/// Realizes plane equation `a*x+b*y+c*z+d=0` with unit normal `[a, b, c]` and signed bias `d`.
#[derive(Clone, Copy, Debug)]
pub struct Plane<N> {
    /// Plane unit normal.
    pub normal: Vec3<N>,
    /// Signed bias along unit normal.
    pub bias: N,
}

/// `signed` is `angle`, negated if `reversed`.
pub open spec fn is_signed_angle<N: Scalar>(angle: N, reversed: bool, signed: N) -> bool {
    if reversed {
        op::negate(angle, signed)
    } else {
        signed == angle
    }
}

/// Angle with the sign that the orientation of its rotation axis gives it.
///
/// `reversed` tells that the axis points against the reference normal.
pub fn signed_angle<N: Scalar>(angle: N, reversed: bool) -> (signed: N)
    ensures
        is_signed_angle(angle, reversed, signed),
{
    if reversed {
        angle.negate()
    } else {
        angle
    }
}

impl<N: Scalar> Plane<N> {
    /// `plane` has the given normal and the negated `distance` as bias.
    pub open spec fn is_new(normal: Vec3<N>, distance: N, plane: Self) -> bool {
        plane.normal == normal && op::negate(distance, plane.bias)
    }

    /// `plane` has the given normal at the distance `normal · point`.
    pub open spec fn is_with_point(normal: Vec3<N>, point: Vec3<N>, plane: Self) -> bool {
        exists|distance: N| op::dot(normal, point, distance) && Self::is_new(normal, distance, plane)
    }

    /// `distance` is the negated bias.
    pub open spec fn is_distance(self, distance: N) -> bool {
        op::negate(self.bias, distance)
    }

    /// `distance` is the distance of the plane from the origin minus `normal · point`.
    pub open spec fn is_distance_from(self, point: Vec3<N>, distance: N) -> bool {
        exists|from_origin: N, along: N|
            self.is_distance(from_origin) && op::dot(self.normal, point, along) && op::minus(
                from_origin,
                along,
                distance,
            )
    }

    /// `image` is `vector - normal * (normal · vector + bias)`.
    pub open spec fn is_project_vector(self, vector: Vec3<N>, image: Vec3<N>) -> bool {
        exists|along: N, excess: N, off: Vec3<N>|
            op::dot(self.normal, vector, along) && op::plus(along, self.bias, excess)
                && op::vec_scale(self.normal, excess, off) && op::vec_sub(vector, off, image)
    }

    /// `image` is the normalized projection of `axis`.
    pub open spec fn is_project_axis(self, axis: Vec3<N>, image: Vec3<N>) -> bool {
        exists|flat: Vec3<N>| self.is_project_vector(axis, flat) && op::normalize(flat, image)
    }

    /// `signed` is the angle between `a` and `b`, negated if the sign of `normal · (a × b)`
    /// is negative.
    pub open spec fn is_angle_between(self, a: Vec3<N>, b: Vec3<N>, signed: N) -> bool {
        exists|angle: N, axis: Vec3<N>, along: N, reversed: bool|
            op::angle(a, b, angle) && op::cross(a, b, axis) && op::dot(self.normal, axis, along)
                && op::is_sign_negative(along, reversed) && is_signed_angle(
                angle,
                reversed,
                signed,
            )
    }

    /// `plane` has the rotated normal and the same bias.
    pub open spec fn is_rotate_by(self, rot: Quat<N>, plane: Self) -> bool {
        plane.bias == self.bias && op::rotate(rot, self.normal, plane.normal)
    }

    /// `plane` has the same normal and the bias `bias - normal · vec`.
    pub open spec fn is_translate_by(self, vec: Vec3<N>, plane: Self) -> bool {
        plane.normal == self.normal && exists|along: N|
            op::dot(self.normal, vec, along) && op::minus(self.bias, along, plane.bias)
    }

    /// `plane` is this plane rotated and then translated.
    pub open spec fn is_transform_by(self, iso: Iso3<N>, plane: Self) -> bool {
        exists|turned: Self| self.is_rotate_by(iso.rot, turned) && turned.is_translate_by(iso.vec, plane)
    }

    /// `close` tells whether normals and biases are within `epsilon`.
    pub open spec fn is_abs_diff_eq(self, other: Self, epsilon: N, close: bool) -> bool {
        exists|x: bool, y: bool, z: bool, bias: bool|
            op::abs_diff_eq(self.normal.x, other.normal.x, epsilon, x) && op::abs_diff_eq(
                self.normal.y,
                other.normal.y,
                epsilon,
                y,
            ) && op::abs_diff_eq(self.normal.z, other.normal.z, epsilon, z) && op::abs_diff_eq(
                self.bias,
                other.bias,
                epsilon,
                bias,
            ) && close == (x && y && z && bias)
    }

    /// `close` tells whether normals and biases are within `epsilon` or relatively within `max_relative`.
    pub open spec fn is_relative_eq(self, other: Self, epsilon: N, max_relative: N, close: bool) -> bool {
        exists|x: bool, y: bool, z: bool, bias: bool|
            op::relative_eq(self.normal.x, other.normal.x, epsilon, max_relative, x) && op::relative_eq(self.normal.y, other.normal.y, epsilon, max_relative, y) && op::relative_eq(self.normal.z, other.normal.z, epsilon, max_relative, z) && op::relative_eq(self.bias, other.bias, epsilon, max_relative, bias) && close == (x && y && z && bias)
    }

    /// `close` tells whether normals and biases are within `epsilon` or within `max_ulps` units in the last place.
    pub open spec fn is_ulps_eq(self, other: Self, epsilon: N, max_ulps: u32, close: bool) -> bool {
        exists|x: bool, y: bool, z: bool, bias: bool|
            op::ulps_eq(self.normal.x, other.normal.x, epsilon, max_ulps, x) && op::ulps_eq(self.normal.y, other.normal.y, epsilon, max_ulps, y) && op::ulps_eq(self.normal.z, other.normal.z, epsilon, max_ulps, z) && op::ulps_eq(self.bias, other.bias, epsilon, max_ulps, bias) && close == (x && y && z && bias)
    }

    /// Plane from unit `normal` and signed `distance` from the origin.
    ///
    /// The bias is the negated distance.
    pub fn new(normal: Vec3<N>, distance: N) -> (plane: Self)
        ensures
            Self::is_new(normal, distance, plane),
    {
        Plane { normal, bias: distance.negate() }
    }

    /// Plane from unit normal with point in plane.
    pub fn with_point(normal: Vec3<N>, point: &Vec3<N>) -> (plane: Self)
        ensures
            Self::is_with_point(normal, *point, plane),
    {
        Self::new(normal, N::dot(normal, *point))
    }

    /// Signed orthogonal distance from the origin.
    pub fn distance(&self) -> (distance: N)
        ensures
            self.is_distance(distance),
    {
        self.bias.negate()
    }

    /// Signed orthogonal distance from `point`.
    pub fn distance_from(&self, point: &Vec3<N>) -> (distance: N)
        ensures
            self.is_distance_from(*point, distance),
    {
        self.distance().minus(N::dot(self.normal, *point))
    }

    /// Projects point onto plane.
    pub fn project_point(&self, point: &Vec3<N>) -> (image: Vec3<N>)
        ensures
            self.is_project_vector(*point, image),
    {
        self.project_vector(point)
    }

    /// Projects axis onto plane.
    pub fn project_axis(&self, axis: &Vec3<N>) -> (image: Vec3<N>)
        ensures
            self.is_project_axis(*axis, image),
    {
        N::normalize(self.project_vector(axis))
    }

    /// Projects vector onto plane.
    pub fn project_vector(&self, vector: &Vec3<N>) -> (image: Vec3<N>)
        ensures
            self.is_project_vector(*vector, image),
    {
        let excess = N::dot(self.normal, *vector).plus(self.bias);
        N::vec_sub(*vector, N::vec_scale(self.normal, excess))
    }

    /// Signed angle from `a` to `b` where both vectors are in the plane.
    ///
    /// The angle is negative where the cross product of `a` and `b` points against the normal.
    pub fn angle_between(&self, a: &Vec3<N>, b: &Vec3<N>) -> (signed: N)
        ensures
            self.is_angle_between(*a, *b, signed),
    {
        let angle = N::angle(*a, *b);
        let axis = N::cross(*a, *b);
        signed_angle(angle, N::dot(self.normal, axis).is_sign_negative())
    }

    /// Rotates plane.
    pub fn rotate_by(self, rot: &Quat<N>) -> (plane: Self)
        ensures
            self.is_rotate_by(*rot, plane),
    {
        Plane { normal: N::rotate(*rot, self.normal), bias: self.bias }
    }

    /// Translates plane.
    pub fn translate_by(self, vec: &Vec3<N>) -> (plane: Self)
        ensures
            self.is_translate_by(*vec, plane),
    {
        Plane { normal: self.normal, bias: self.bias.minus(N::dot(self.normal, *vec)) }
    }

    /// Transforms plane by direct isometry, i.e., rotation followed by translation.
    pub fn transform_by(self, iso: &Iso3<N>) -> (plane: Self)
        ensures
            self.is_transform_by(*iso, plane),
    {
        self.rotate_by(&iso.rot).translate_by(&iso.vec)
    }

    /// Whether normal and bias of both planes are within `epsilon` or relatively within `max_relative` in each component.
    pub fn relative_eq(&self, other: &Self, epsilon: N, max_relative: N) -> (close: bool)
        ensures
            self.is_relative_eq(*other, epsilon, max_relative, close),
    {
        let x = self.normal.x.relative_eq(other.normal.x, epsilon, max_relative);
        let y = self.normal.y.relative_eq(other.normal.y, epsilon, max_relative);
        let z = self.normal.z.relative_eq(other.normal.z, epsilon, max_relative);
        let bias = self.bias.relative_eq(other.bias, epsilon, max_relative);
        assert(op::relative_eq(self.normal.x, other.normal.x, epsilon, max_relative, x) && op::relative_eq(self.normal.y, other.normal.y, epsilon, max_relative, y) && op::relative_eq(self.normal.z, other.normal.z, epsilon, max_relative, z) && op::relative_eq(self.bias, other.bias, epsilon, max_relative, bias));
        x && y && z && bias
    }

    /// Whether normal and bias of both planes are within `epsilon` or within `max_ulps` units in the last place in each component.
    pub fn ulps_eq(&self, other: &Self, epsilon: N, max_ulps: u32) -> (close: bool)
        ensures
            self.is_ulps_eq(*other, epsilon, max_ulps, close),
    {
        let x = self.normal.x.ulps_eq(other.normal.x, epsilon, max_ulps);
        let y = self.normal.y.ulps_eq(other.normal.y, epsilon, max_ulps);
        let z = self.normal.z.ulps_eq(other.normal.z, epsilon, max_ulps);
        let bias = self.bias.ulps_eq(other.bias, epsilon, max_ulps);
        assert(op::ulps_eq(self.normal.x, other.normal.x, epsilon, max_ulps, x) && op::ulps_eq(self.normal.y, other.normal.y, epsilon, max_ulps, y) && op::ulps_eq(self.normal.z, other.normal.z, epsilon, max_ulps, z) && op::ulps_eq(self.bias, other.bias, epsilon, max_ulps, bias));
        x && y && z && bias
    }

    /// Whether normal and bias of both planes differ by at most `epsilon` in each component.
    pub fn abs_diff_eq(&self, other: &Self, epsilon: N) -> (close: bool)
        ensures
            self.is_abs_diff_eq(*other, epsilon, close),
    {
        let x = self.normal.x.abs_diff_eq(other.normal.x, epsilon);
        let y = self.normal.y.abs_diff_eq(other.normal.y, epsilon);
        let z = self.normal.z.abs_diff_eq(other.normal.z, epsilon);
        let bias = self.bias.abs_diff_eq(other.bias, epsilon);
        x && y && z && bias
    }
}

impl<N: Copy> Plane<N> {
    /// Casts components to another type, e.g., between single and double precision.
    pub fn cast<M>(self) -> (plane: Plane<M>) where N: Cast<M>
        ensures
            is_cast_vec3(self.normal, plane.normal),
            is_cast(self.bias, plane.bias),
    {
        Plane { normal: cast_vec3(self.normal), bias: self.bias.cast() }
    }
}

} // verus!
