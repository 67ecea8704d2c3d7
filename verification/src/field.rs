//! The scalar field and the small value types that the camera math is written over.
//!
//! Every formula of this crate is generic over a scalar `N: Scalar`. The trait lists the
//! elementary operations of a real field and of its three-dimensional vectors, unit
//! quaternions, isometries and homogeneous matrices. It demands nothing of an
//! implementation. What the crate computes is stated relative to the field: a contract says
//! which operations are applied to which operands in terms of what they yield, see
//! [`crate::op`], and holds for every implementation.
use vstd::prelude::*;

verus! {

/// Pair of scalars: a position or a displacement in screen space.
#[derive(Clone, Copy, Debug)]
pub struct Vec2<N> {
    pub x: N,
    pub y: N,
}

/// Triple of scalars: a position, a direction or a unit axis in world or camera space.
#[derive(Clone, Copy, Debug)]
pub struct Vec3<N> {
    pub x: N,
    pub y: N,
    pub z: N,
}

/// Coefficients of a unit quaternion encoding a rotation: imaginary part `i, j, k`, real part `w`.
#[derive(Clone, Copy, Debug)]
pub struct Quat<N> {
    pub i: N,
    pub j: N,
    pub k: N,
    pub w: N,
}

/// Direct isometry: rotation followed by translation.
#[derive(Clone, Copy, Debug)]
pub struct Iso3<N> {
    pub rot: Quat<N>,
    pub vec: Vec3<N>,
}

/// Homogeneous transformation of four rows and four columns, stored column by column.
#[derive(Clone, Copy, Debug)]
pub struct Mat4<N> {
    pub cols: [[N; 4]; 4],
}

/// Scalar that casts to a scalar of another field, e.g., between single and double
/// precision.
pub trait Cast<M>: Sized {
    /// Scalar of the other field for this one.
    fn cast(self) -> M;
}

/// `r` is what casting `a` yields.
#[verifier::inline]
pub open spec fn is_cast<N: Cast<M>, M>(a: N, r: M) -> bool {
    call_ensures(<N as Cast<M>>::cast, (a,), r)
}

/// Each component of `r` is what casting the component of `a` yields.
pub open spec fn is_cast_vec2<N: Cast<M>, M>(a: Vec2<N>, r: Vec2<M>) -> bool {
    is_cast(a.x, r.x) && is_cast(a.y, r.y)
}

/// Each component of `r` is what casting the component of `a` yields.
pub open spec fn is_cast_vec3<N: Cast<M>, M>(a: Vec3<N>, r: Vec3<M>) -> bool {
    is_cast(a.x, r.x) && is_cast(a.y, r.y) && is_cast(a.z, r.z)
}

/// Each coefficient of `r` is what casting the coefficient of `a` yields.
pub open spec fn is_cast_quat<N: Cast<M>, M>(a: Quat<N>, r: Quat<M>) -> bool {
    is_cast(a.i, r.i) && is_cast(a.j, r.j) && is_cast(a.k, r.k) && is_cast(a.w, r.w)
}

/// Casts components to another type.
pub fn cast_vec2<N: Cast<M>, M>(a: Vec2<N>) -> (r: Vec2<M>)
    ensures
        is_cast_vec2(a, r),
{
    Vec2 { x: a.x.cast(), y: a.y.cast() }
}

/// Casts components to another type.
pub fn cast_vec3<N: Cast<M>, M>(a: Vec3<N>) -> (r: Vec3<M>)
    ensures
        is_cast_vec3(a, r),
{
    Vec3 { x: a.x.cast(), y: a.y.cast(), z: a.z.cast() }
}

/// Casts coefficients to another type.
pub fn cast_quat<N: Cast<M>, M>(a: Quat<N>) -> (r: Quat<M>)
    ensures
        is_cast_quat(a, r),
{
    Quat { i: a.i.cast(), j: a.j.cast(), k: a.k.cast(), w: a.w.cast() }
}

/// Each entry of `r` is what casting the entry of `a` yields.
pub open spec fn is_cast_col<N: Cast<M>, M>(a: [N; 4], r: [M; 4]) -> bool {
    is_cast(a[0], r[0]) && is_cast(a[1], r[1]) && is_cast(a[2], r[2]) && is_cast(a[3], r[3])
}

/// Each entry of `r` is what casting the entry of `a` yields.
pub open spec fn is_cast_mat4<N: Cast<M>, M>(a: Mat4<N>, r: Mat4<M>) -> bool {
    is_cast_col(a.cols[0], r.cols[0]) && is_cast_col(a.cols[1], r.cols[1]) && is_cast_col(
        a.cols[2],
        r.cols[2],
    ) && is_cast_col(a.cols[3], r.cols[3])
}

/// Rotation and translation of `r` have each component cast.
pub open spec fn is_cast_iso3<N: Cast<M>, M>(a: Iso3<N>, r: Iso3<M>) -> bool {
    is_cast_quat(a.rot, r.rot) && is_cast_vec3(a.vec, r.vec)
}

/// Casts entries to another type.
pub fn cast_col<N: Cast<M> + Copy, M>(a: &[N; 4]) -> (r: [M; 4])
    ensures
        is_cast_col(*a, r),
{
    [a[0].cast(), a[1].cast(), a[2].cast(), a[3].cast()]
}

/// Casts entries to another type.
pub fn cast_mat4<N: Cast<M> + Copy, M>(a: &Mat4<N>) -> (r: Mat4<M>)
    ensures
        is_cast_mat4(*a, r),
{
    Mat4 {
        cols: [cast_col(&a.cols[0]), cast_col(&a.cols[1]), cast_col(&a.cols[2]), cast_col(
            &a.cols[3],
        )],
    }
}

/// Casts components to another type.
pub fn cast_iso3<N: Cast<M>, M>(a: Iso3<N>) -> (r: Iso3<M>)
    ensures
        is_cast_iso3(a, r),
{
    Iso3 { rot: cast_quat(a.rot), vec: cast_vec3(a.vec) }
}

/// Real scalar field with the vector and rotation algebra built on it.
///
/// Implementations are expected to keep unit quaternions and unit axes normalized and to
/// compare scalars as real numbers do; nothing that this crate proves relies on either.
pub trait Scalar: Copy + Sized {
    /// Additive identity.
    fn zero() -> Self;

    /// Multiplicative identity.
    fn one() -> Self;

    /// One half.
    fn half() -> Self;

    /// One tenth.
    fn tenth() -> Self;

    /// Quarter turn, π/2.
    fn frac_pi_2() -> Self;

    /// Eighth turn, π/4.
    fn frac_pi_4() -> Self;

    /// Tolerance at which two scalars are regarded as equal by default.
    fn default_epsilon() -> Self;

    /// Smallest finite scalar.
    fn min_value() -> Self;

    /// Largest finite scalar.
    fn max_value() -> Self;

    /// Scalar nearest to a count.
    fn from_count(n: usize) -> Self;

    /// Sum.
    fn plus(self, rhs: Self) -> Self;

    /// Difference.
    fn minus(self, rhs: Self) -> Self;

    /// Product.
    fn times(self, rhs: Self) -> Self;

    /// Quotient.
    fn over(self, rhs: Self) -> Self;

    /// Negation.
    fn negate(self) -> Self;

    /// Square root.
    fn sqrt(self) -> Self;

    /// Sine and cosine, in this order.
    fn sin_cos(self) -> (Self, Self);

    /// Tangent.
    fn tan(self) -> Self;

    /// Arc tangent.
    fn atan(self) -> Self;

    /// Four-quadrant arc tangent of `self / rhs`.
    fn atan2(self, rhs: Self) -> Self;

    /// Larger of two scalars.
    fn max(self, rhs: Self) -> Self;

    /// Scalar restricted to the interval from `lo` to `hi`.
    fn clamp(self, lo: Self, hi: Self) -> Self;

    /// Whether `self` is strictly less than `rhs`.
    fn less(self, rhs: Self) -> bool;

    /// Whether both scalars compare equal.
    fn same(self, rhs: Self) -> bool;

    /// Whether the sign of the scalar is negative.
    fn is_sign_negative(self) -> bool;

    /// Absolute value.
    fn abs(self) -> Self;

    /// Whether both scalars differ by at most `epsilon`.
    fn abs_diff_eq(self, rhs: Self, epsilon: Self) -> bool;

    /// Whether both scalars differ by at most `epsilon`, or by at most `max_relative` times
    /// the larger of their absolute values.
    fn relative_eq(self, rhs: Self, epsilon: Self, max_relative: Self) -> bool;

    /// Whether both scalars differ by at most `epsilon`, or by at most `max_ulps` units in
    /// the last place.
    fn ulps_eq(self, rhs: Self, epsilon: Self, max_ulps: u32) -> bool;

    /// Relative tolerance at which two scalars are regarded as equal by default.
    fn default_max_relative() -> Self;

    /// Units in the last place at which two scalars are regarded as equal by default.
    fn default_max_ulps() -> u32;

    /// Component-wise difference of two screen positions.
    fn flat_sub(a: Vec2<Self>, b: Vec2<Self>) -> Vec2<Self>;

    /// Screen vector scaled to unit length together with its former length.
    fn flat_normalize(a: Vec2<Self>) -> (Vec2<Self>, Self);

    /// Inner product of two screen vectors.
    fn flat_dot(a: Vec2<Self>, b: Vec2<Self>) -> Self;

    /// Perpendicular product of two screen vectors, that is the z-component of their cross
    /// product.
    fn flat_perp(a: Vec2<Self>, b: Vec2<Self>) -> Self;

    /// Component-wise sum.
    fn vec_add(a: Vec3<Self>, b: Vec3<Self>) -> Vec3<Self>;

    /// Component-wise difference.
    fn vec_sub(a: Vec3<Self>, b: Vec3<Self>) -> Vec3<Self>;

    /// Component-wise negation.
    fn vec_neg(a: Vec3<Self>) -> Vec3<Self>;

    /// Vector scaled by a factor.
    fn vec_scale(a: Vec3<Self>, s: Self) -> Vec3<Self>;

    /// Linear interpolation from `a` to `b` at parameter `t`.
    fn vec_lerp(a: Vec3<Self>, b: Vec3<Self>, t: Self) -> Vec3<Self>;

    /// Inner product.
    fn dot(a: Vec3<Self>, b: Vec3<Self>) -> Self;

    /// Cross product.
    fn cross(a: Vec3<Self>, b: Vec3<Self>) -> Vec3<Self>;

    /// Euclidean length.
    fn norm(a: Vec3<Self>) -> Self;

    /// Vector scaled to unit length.
    fn normalize(a: Vec3<Self>) -> Vec3<Self>;

    /// Vector scaled to unit length together with its former length, or `None` if that
    /// length does not exceed `min_norm`.
    fn try_normalize(a: Vec3<Self>, min_norm: Self) -> Option<(Vec3<Self>, Self)>;

    /// Unsigned angle between two vectors.
    fn angle(a: Vec3<Self>, b: Vec3<Self>) -> Self;

    /// Matrix with the given columns applied to a vector.
    fn cols_mul(c0: Vec3<Self>, c1: Vec3<Self>, c2: Vec3<Self>, v: Vec3<Self>) -> Vec3<Self>;

    /// Transpose of the matrix with the given columns applied to a vector.
    fn cols_tr_mul(c0: Vec3<Self>, c1: Vec3<Self>, c2: Vec3<Self>, v: Vec3<Self>) -> Vec3<Self>;

    /// Rotation by zero angle.
    fn rot_identity() -> Quat<Self>;

    /// Rotation around a unit axis by an angle.
    fn rot_from_axis_angle(axis: Vec3<Self>, angle: Self) -> Quat<Self>;

    /// Rotation whose z-axis points along `dir` and whose y-axis leans towards `up`.
    fn rot_face_towards(dir: Vec3<Self>, up: Vec3<Self>) -> Quat<Self>;

    /// Smallest rotation carrying `a` onto the direction of `b`, or `None` if there is no
    /// unique one.
    fn rot_between(a: Vec3<Self>, b: Vec3<Self>) -> Option<Quat<Self>>;

    /// Composition applying `b` first and `a` second.
    fn rot_mul(a: Quat<Self>, b: Quat<Self>) -> Quat<Self>;

    /// Inverse rotation.
    fn rot_inverse(a: Quat<Self>) -> Quat<Self>;

    /// Rotation raised to a power: same axis, angle scaled by `t`.
    fn rot_powf(a: Quat<Self>, t: Self) -> Quat<Self>;

    /// Spherical interpolation from `a` to `b` at parameter `t`, or `None` if the sine of
    /// the angle separating both quaternions is zero up to `epsilon`.
    fn rot_try_slerp(a: Quat<Self>, b: Quat<Self>, t: Self, epsilon: Self) -> Option<Quat<Self>>;

    /// Quaternion rescaled to unit norm together with its former norm.
    fn rot_renormalize(a: Quat<Self>) -> (Quat<Self>, Self);

    /// Angle of the rotation, between zero and π.
    fn rot_angle(a: Quat<Self>) -> Self;

    /// Vector rotated.
    fn rotate(a: Quat<Self>, v: Vec3<Self>) -> Vec3<Self>;

    /// Whether both quaternions encode the same rotation: all coefficients compare equal,
    /// or all compare equal after negating one quaternion.
    fn rot_same(a: Quat<Self>, b: Quat<Self>) -> bool;

    /// Whether all coefficients of both rotations differ by at most `epsilon`.
    fn rot_abs_diff_eq(a: Quat<Self>, b: Quat<Self>, epsilon: Self) -> bool;

    /// Whether all coefficients of both rotations are equal up to `epsilon` or relatively up
    /// to `max_relative`.
    fn rot_relative_eq(a: Quat<Self>, b: Quat<Self>, epsilon: Self, max_relative: Self) -> bool;

    /// Whether all coefficients of both rotations are equal up to `epsilon` or up to
    /// `max_ulps` units in the last place.
    fn rot_ulps_eq(a: Quat<Self>, b: Quat<Self>, epsilon: Self, max_ulps: u32) -> bool;

    /// Inverse isometry.
    fn iso_inverse(a: Iso3<Self>) -> Iso3<Self>;

    /// Point rotated and then translated.
    fn iso_transform_point(a: Iso3<Self>, p: Vec3<Self>) -> Vec3<Self>;

    /// Homogeneous matrix of an isometry.
    fn iso_to_homogeneous(a: Iso3<Self>) -> Mat4<Self>;

    /// Matrix of zeros.
    fn mat_zero() -> Mat4<Self>;

    /// Orthographic projection of the box between the given clip planes.
    ///
    /// An implementation may refuse a box of no extent.
    fn mat_orthographic(
        left: Self,
        right: Self,
        bottom: Self,
        top: Self,
        znear: Self,
        zfar: Self,
    ) -> Mat4<Self>;

    /// Perspective projection of aspect ratio, vertical field of view and clip plane distances.
    ///
    /// An implementation may refuse superimposed clip planes and an aspect ratio of zero.
    fn mat_perspective(aspect: Self, fovy: Self, znear: Self, zfar: Self) -> Mat4<Self>;

    /// Matrix product.
    fn mat_mul(a: Mat4<Self>, b: Mat4<Self>) -> Mat4<Self>;

    /// Inverse matrix, or `None` if there is none.
    fn mat_try_inverse(a: Mat4<Self>) -> Option<Mat4<Self>>;
}

} // verus!
