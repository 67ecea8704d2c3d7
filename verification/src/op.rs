//! What the operations of a scalar field yield.
//!
//! Each relation holds of operands and a result if the operation of the same name may
//! return that result for these operands. Contracts state computed values through them: the
//! crate claims nothing about the arithmetic of a field, and everything about which
//! operations are applied to which operands.
use vstd::prelude::*;
use crate::field::{Iso3, Mat4, Quat, Scalar, Vec2, Vec3};

verus! {

/// `r` is what `zero` yields.
#[verifier::inline]
pub open spec fn zero<N: Scalar>(r: N) -> bool {
    call_ensures(N::zero, (), r)
}

/// `r` is what `one` yields.
#[verifier::inline]
pub open spec fn one<N: Scalar>(r: N) -> bool {
    call_ensures(N::one, (), r)
}

/// `r` is what `half` yields.
#[verifier::inline]
pub open spec fn half<N: Scalar>(r: N) -> bool {
    call_ensures(N::half, (), r)
}

/// `r` is what `tenth` yields.
#[verifier::inline]
pub open spec fn tenth<N: Scalar>(r: N) -> bool {
    call_ensures(N::tenth, (), r)
}

/// `r` is what `frac_pi_2` yields.
#[verifier::inline]
pub open spec fn frac_pi_2<N: Scalar>(r: N) -> bool {
    call_ensures(N::frac_pi_2, (), r)
}

/// `r` is what `frac_pi_4` yields.
#[verifier::inline]
pub open spec fn frac_pi_4<N: Scalar>(r: N) -> bool {
    call_ensures(N::frac_pi_4, (), r)
}

/// `r` is what `default_epsilon` yields.
#[verifier::inline]
pub open spec fn default_epsilon<N: Scalar>(r: N) -> bool {
    call_ensures(N::default_epsilon, (), r)
}

/// `r` is what `min_value` yields.
#[verifier::inline]
pub open spec fn min_value<N: Scalar>(r: N) -> bool {
    call_ensures(N::min_value, (), r)
}

/// `r` is what `max_value` yields.
#[verifier::inline]
pub open spec fn max_value<N: Scalar>(r: N) -> bool {
    call_ensures(N::max_value, (), r)
}

/// `r` is what `from_count` yields.
#[verifier::inline]
pub open spec fn from_count<N: Scalar>(n: usize, r: N) -> bool {
    call_ensures(N::from_count, (n,), r)
}

/// `r` is what `plus` yields.
#[verifier::inline]
pub open spec fn plus<N: Scalar>(a: N, rhs: N, r: N) -> bool {
    call_ensures(N::plus, (a, rhs), r)
}

/// `r` is what `minus` yields.
#[verifier::inline]
pub open spec fn minus<N: Scalar>(a: N, rhs: N, r: N) -> bool {
    call_ensures(N::minus, (a, rhs), r)
}

/// `r` is what `times` yields.
#[verifier::inline]
pub open spec fn times<N: Scalar>(a: N, rhs: N, r: N) -> bool {
    call_ensures(N::times, (a, rhs), r)
}

/// `r` is what `over` yields.
#[verifier::inline]
pub open spec fn over<N: Scalar>(a: N, rhs: N, r: N) -> bool {
    call_ensures(N::over, (a, rhs), r)
}

/// `r` is what `negate` yields.
#[verifier::inline]
pub open spec fn negate<N: Scalar>(a: N, r: N) -> bool {
    call_ensures(N::negate, (a,), r)
}

/// `r` is what `sqrt` yields.
#[verifier::inline]
pub open spec fn sqrt<N: Scalar>(a: N, r: N) -> bool {
    call_ensures(N::sqrt, (a,), r)
}

/// `r` is what `sin_cos` yields.
#[verifier::inline]
pub open spec fn sin_cos<N: Scalar>(a: N, r: (N, N)) -> bool {
    call_ensures(N::sin_cos, (a,), r)
}

/// `r` is what `tan` yields.
#[verifier::inline]
pub open spec fn tan<N: Scalar>(a: N, r: N) -> bool {
    call_ensures(N::tan, (a,), r)
}

/// `r` is what `atan` yields.
#[verifier::inline]
pub open spec fn atan<N: Scalar>(a: N, r: N) -> bool {
    call_ensures(N::atan, (a,), r)
}

/// `r` is what `atan2` yields.
#[verifier::inline]
pub open spec fn atan2<N: Scalar>(a: N, rhs: N, r: N) -> bool {
    call_ensures(N::atan2, (a, rhs), r)
}

/// `r` is what `max` yields.
#[verifier::inline]
pub open spec fn max<N: Scalar>(a: N, rhs: N, r: N) -> bool {
    call_ensures(N::max, (a, rhs), r)
}

/// `r` is what `clamp` yields.
#[verifier::inline]
pub open spec fn clamp<N: Scalar>(a: N, lo: N, hi: N, r: N) -> bool {
    call_ensures(N::clamp, (a, lo, hi), r)
}

/// `r` is what `less` yields.
#[verifier::inline]
pub open spec fn less<N: Scalar>(a: N, rhs: N, r: bool) -> bool {
    call_ensures(N::less, (a, rhs), r)
}

/// `r` is what `same` yields.
#[verifier::inline]
pub open spec fn same<N: Scalar>(a: N, rhs: N, r: bool) -> bool {
    call_ensures(N::same, (a, rhs), r)
}

/// `r` is what `is_sign_negative` yields.
#[verifier::inline]
pub open spec fn is_sign_negative<N: Scalar>(a: N, r: bool) -> bool {
    call_ensures(N::is_sign_negative, (a,), r)
}

/// `r` is what `abs` yields.
#[verifier::inline]
pub open spec fn abs<N: Scalar>(a: N, r: N) -> bool {
    call_ensures(N::abs, (a,), r)
}

/// `r` is what `abs_diff_eq` yields.
#[verifier::inline]
pub open spec fn abs_diff_eq<N: Scalar>(a: N, rhs: N, epsilon: N, r: bool) -> bool {
    call_ensures(N::abs_diff_eq, (a, rhs, epsilon), r)
}

/// `r` is what `flat_sub` yields.
#[verifier::inline]
pub open spec fn flat_sub<N: Scalar>(a: Vec2<N>, b: Vec2<N>, r: Vec2<N>) -> bool {
    call_ensures(N::flat_sub, (a, b), r)
}

/// `r` is what `flat_normalize` yields.
#[verifier::inline]
pub open spec fn flat_normalize<N: Scalar>(a: Vec2<N>, r: (Vec2<N>, N)) -> bool {
    call_ensures(N::flat_normalize, (a,), r)
}

/// `r` is what `flat_dot` yields.
#[verifier::inline]
pub open spec fn flat_dot<N: Scalar>(a: Vec2<N>, b: Vec2<N>, r: N) -> bool {
    call_ensures(N::flat_dot, (a, b), r)
}

/// `r` is what `flat_perp` yields.
#[verifier::inline]
pub open spec fn flat_perp<N: Scalar>(a: Vec2<N>, b: Vec2<N>, r: N) -> bool {
    call_ensures(N::flat_perp, (a, b), r)
}

/// `r` is what `vec_add` yields.
#[verifier::inline]
pub open spec fn vec_add<N: Scalar>(a: Vec3<N>, b: Vec3<N>, r: Vec3<N>) -> bool {
    call_ensures(N::vec_add, (a, b), r)
}

/// `r` is what `vec_sub` yields.
#[verifier::inline]
pub open spec fn vec_sub<N: Scalar>(a: Vec3<N>, b: Vec3<N>, r: Vec3<N>) -> bool {
    call_ensures(N::vec_sub, (a, b), r)
}

/// `r` is what `vec_neg` yields.
#[verifier::inline]
pub open spec fn vec_neg<N: Scalar>(a: Vec3<N>, r: Vec3<N>) -> bool {
    call_ensures(N::vec_neg, (a,), r)
}

/// `r` is what `vec_scale` yields.
#[verifier::inline]
pub open spec fn vec_scale<N: Scalar>(a: Vec3<N>, s: N, r: Vec3<N>) -> bool {
    call_ensures(N::vec_scale, (a, s), r)
}

/// `r` is what `vec_lerp` yields.
#[verifier::inline]
pub open spec fn vec_lerp<N: Scalar>(a: Vec3<N>, b: Vec3<N>, t: N, r: Vec3<N>) -> bool {
    call_ensures(N::vec_lerp, (a, b, t), r)
}

/// `r` is what `dot` yields.
#[verifier::inline]
pub open spec fn dot<N: Scalar>(a: Vec3<N>, b: Vec3<N>, r: N) -> bool {
    call_ensures(N::dot, (a, b), r)
}

/// `r` is what `cross` yields.
#[verifier::inline]
pub open spec fn cross<N: Scalar>(a: Vec3<N>, b: Vec3<N>, r: Vec3<N>) -> bool {
    call_ensures(N::cross, (a, b), r)
}

/// `r` is what `norm` yields.
#[verifier::inline]
pub open spec fn norm<N: Scalar>(a: Vec3<N>, r: N) -> bool {
    call_ensures(N::norm, (a,), r)
}

/// `r` is what `normalize` yields.
#[verifier::inline]
pub open spec fn normalize<N: Scalar>(a: Vec3<N>, r: Vec3<N>) -> bool {
    call_ensures(N::normalize, (a,), r)
}

/// `r` is what `try_normalize` yields.
#[verifier::inline]
pub open spec fn try_normalize<N: Scalar>(a: Vec3<N>, min_norm: N, r: Option<(Vec3<N>, N)>) -> bool {
    call_ensures(N::try_normalize, (a, min_norm), r)
}

/// `r` is what `angle` yields.
#[verifier::inline]
pub open spec fn angle<N: Scalar>(a: Vec3<N>, b: Vec3<N>, r: N) -> bool {
    call_ensures(N::angle, (a, b), r)
}

/// `r` is what `cols_mul` yields.
#[verifier::inline]
pub open spec fn cols_mul<N: Scalar>(c0: Vec3<N>, c1: Vec3<N>, c2: Vec3<N>, v: Vec3<N>, r: Vec3<N>) -> bool {
    call_ensures(N::cols_mul, (c0, c1, c2, v), r)
}

/// `r` is what `cols_tr_mul` yields.
#[verifier::inline]
pub open spec fn cols_tr_mul<N: Scalar>(c0: Vec3<N>, c1: Vec3<N>, c2: Vec3<N>, v: Vec3<N>, r: Vec3<N>) -> bool {
    call_ensures(N::cols_tr_mul, (c0, c1, c2, v), r)
}

/// `r` is what `rot_identity` yields.
#[verifier::inline]
pub open spec fn rot_identity<N: Scalar>(r: Quat<N>) -> bool {
    call_ensures(N::rot_identity, (), r)
}

/// `r` is what `rot_from_axis_angle` yields.
#[verifier::inline]
pub open spec fn rot_from_axis_angle<N: Scalar>(axis: Vec3<N>, angle: N, r: Quat<N>) -> bool {
    call_ensures(N::rot_from_axis_angle, (axis, angle), r)
}

/// `r` is what `rot_face_towards` yields.
#[verifier::inline]
pub open spec fn rot_face_towards<N: Scalar>(dir: Vec3<N>, up: Vec3<N>, r: Quat<N>) -> bool {
    call_ensures(N::rot_face_towards, (dir, up), r)
}

/// `r` is what `rot_between` yields.
#[verifier::inline]
pub open spec fn rot_between<N: Scalar>(a: Vec3<N>, b: Vec3<N>, r: Option<Quat<N>>) -> bool {
    call_ensures(N::rot_between, (a, b), r)
}

/// `r` is what `rot_mul` yields.
#[verifier::inline]
pub open spec fn rot_mul<N: Scalar>(a: Quat<N>, b: Quat<N>, r: Quat<N>) -> bool {
    call_ensures(N::rot_mul, (a, b), r)
}

/// `r` is what `rot_inverse` yields.
#[verifier::inline]
pub open spec fn rot_inverse<N: Scalar>(a: Quat<N>, r: Quat<N>) -> bool {
    call_ensures(N::rot_inverse, (a,), r)
}

/// `r` is what `rot_powf` yields.
#[verifier::inline]
pub open spec fn rot_powf<N: Scalar>(a: Quat<N>, t: N, r: Quat<N>) -> bool {
    call_ensures(N::rot_powf, (a, t), r)
}

/// `r` is what `rot_try_slerp` yields.
#[verifier::inline]
pub open spec fn rot_try_slerp<N: Scalar>(a: Quat<N>, b: Quat<N>, t: N, epsilon: N, r: Option<Quat<N>>) -> bool {
    call_ensures(N::rot_try_slerp, (a, b, t, epsilon), r)
}

/// `r` is what `rot_renormalize` yields.
#[verifier::inline]
pub open spec fn rot_renormalize<N: Scalar>(a: Quat<N>, r: (Quat<N>, N)) -> bool {
    call_ensures(N::rot_renormalize, (a,), r)
}

/// `r` is what `rot_angle` yields.
#[verifier::inline]
pub open spec fn rot_angle<N: Scalar>(a: Quat<N>, r: N) -> bool {
    call_ensures(N::rot_angle, (a,), r)
}

/// `r` is what `rotate` yields.
#[verifier::inline]
pub open spec fn rotate<N: Scalar>(a: Quat<N>, v: Vec3<N>, r: Vec3<N>) -> bool {
    call_ensures(N::rotate, (a, v), r)
}

/// `r` is what `rot_same` yields.
#[verifier::inline]
pub open spec fn rot_same<N: Scalar>(a: Quat<N>, b: Quat<N>, r: bool) -> bool {
    call_ensures(N::rot_same, (a, b), r)
}

/// `r` is what `rot_abs_diff_eq` yields.
#[verifier::inline]
pub open spec fn rot_abs_diff_eq<N: Scalar>(a: Quat<N>, b: Quat<N>, epsilon: N, r: bool) -> bool {
    call_ensures(N::rot_abs_diff_eq, (a, b, epsilon), r)
}

/// `r` is what `iso_inverse` yields.
#[verifier::inline]
pub open spec fn iso_inverse<N: Scalar>(a: Iso3<N>, r: Iso3<N>) -> bool {
    call_ensures(N::iso_inverse, (a,), r)
}

/// `r` is what `iso_transform_point` yields.
#[verifier::inline]
pub open spec fn iso_transform_point<N: Scalar>(a: Iso3<N>, p: Vec3<N>, r: Vec3<N>) -> bool {
    call_ensures(N::iso_transform_point, (a, p), r)
}

/// `r` is what `iso_to_homogeneous` yields.
#[verifier::inline]
pub open spec fn iso_to_homogeneous<N: Scalar>(a: Iso3<N>, r: Mat4<N>) -> bool {
    call_ensures(N::iso_to_homogeneous, (a,), r)
}

/// `r` is what `mat_zero` yields.
#[verifier::inline]
pub open spec fn mat_zero<N: Scalar>(r: Mat4<N>) -> bool {
    call_ensures(N::mat_zero, (), r)
}

/// `r` is what `mat_orthographic` yields.
#[verifier::inline]
pub open spec fn mat_orthographic<N: Scalar>(left: N, right: N, bottom: N, top: N, znear: N, zfar: N, r: Mat4<N>) -> bool {
    call_ensures(N::mat_orthographic, (left, right, bottom, top, znear, zfar), r)
}

/// `r` is what `mat_perspective` yields.
#[verifier::inline]
pub open spec fn mat_perspective<N: Scalar>(aspect: N, fovy: N, znear: N, zfar: N, r: Mat4<N>) -> bool {
    call_ensures(N::mat_perspective, (aspect, fovy, znear, zfar), r)
}

/// `r` is what `mat_mul` yields.
#[verifier::inline]
pub open spec fn mat_mul<N: Scalar>(a: Mat4<N>, b: Mat4<N>, r: Mat4<N>) -> bool {
    call_ensures(N::mat_mul, (a, b), r)
}

/// `r` is what `mat_try_inverse` yields.
#[verifier::inline]
pub open spec fn mat_try_inverse<N: Scalar>(a: Mat4<N>, r: Option<Mat4<N>>) -> bool {
    call_ensures(N::mat_try_inverse, (a,), r)
}

/// `r` is what `relative_eq` yields.
#[verifier::inline]
pub open spec fn relative_eq<N: Scalar>(a: N, rhs: N, epsilon: N, max_relative: N, r: bool) -> bool {
    call_ensures(N::relative_eq, (a, rhs, epsilon, max_relative), r)
}

/// `r` is what `ulps_eq` yields.
#[verifier::inline]
pub open spec fn ulps_eq<N: Scalar>(a: N, rhs: N, epsilon: N, max_ulps: u32, r: bool) -> bool {
    call_ensures(N::ulps_eq, (a, rhs, epsilon, max_ulps), r)
}

/// `r` is what `default_max_relative` yields.
#[verifier::inline]
pub open spec fn default_max_relative<N: Scalar>(r: N) -> bool {
    call_ensures(N::default_max_relative, (), r)
}

/// `r` is what `default_max_ulps` yields.
#[verifier::inline]
pub open spec fn default_max_ulps<N: Scalar>(r: u32) -> bool {
    call_ensures(N::default_max_ulps, (), r)
}

/// `r` is what `rot_relative_eq` yields.
#[verifier::inline]
pub open spec fn rot_relative_eq<N: Scalar>(
    a: Quat<N>,
    b: Quat<N>,
    epsilon: N,
    max_relative: N,
    r: bool,
) -> bool {
    call_ensures(N::rot_relative_eq, (a, b, epsilon, max_relative), r)
}

/// `r` is what `rot_ulps_eq` yields.
#[verifier::inline]
pub open spec fn rot_ulps_eq<N: Scalar>(a: Quat<N>, b: Quat<N>, epsilon: N, max_ulps: u32, r: bool) -> bool {
    call_ensures(N::rot_ulps_eq, (a, b, epsilon, max_ulps), r)
}

/// Every operation of the field is a function of its operands: it yields one result only.
pub open spec fn is_function<N: Scalar>() -> bool {
    &&& forall|first: N, second: N| #![trigger zero(first), zero(second)]
        zero(first) && zero(second) ==> first == second
    &&& forall|first: N, second: N| #![trigger one(first), one(second)]
        one(first) && one(second) ==> first == second
    &&& forall|first: N, second: N| #![trigger half(first), half(second)]
        half(first) && half(second) ==> first == second
    &&& forall|first: N, second: N| #![trigger tenth(first), tenth(second)]
        tenth(first) && tenth(second) ==> first == second
    &&& forall|first: N, second: N| #![trigger frac_pi_2(first), frac_pi_2(second)]
        frac_pi_2(first) && frac_pi_2(second) ==> first == second
    &&& forall|first: N, second: N| #![trigger frac_pi_4(first), frac_pi_4(second)]
        frac_pi_4(first) && frac_pi_4(second) ==> first == second
    &&& forall|first: N, second: N| #![trigger default_epsilon(first), default_epsilon(second)]
        default_epsilon(first) && default_epsilon(second) ==> first == second
    &&& forall|first: N, second: N| #![trigger min_value(first), min_value(second)]
        min_value(first) && min_value(second) ==> first == second
    &&& forall|first: N, second: N| #![trigger max_value(first), max_value(second)]
        max_value(first) && max_value(second) ==> first == second
    &&& forall|n: usize, first: N, second: N| #![trigger from_count(n, first), from_count(n, second)]
        from_count(n, first) && from_count(n, second) ==> first == second
    &&& forall|a: N, rhs: N, first: N, second: N| #![trigger plus(a, rhs, first), plus(a, rhs, second)]
        plus(a, rhs, first) && plus(a, rhs, second) ==> first == second
    &&& forall|a: N, rhs: N, first: N, second: N| #![trigger minus(a, rhs, first), minus(a, rhs, second)]
        minus(a, rhs, first) && minus(a, rhs, second) ==> first == second
    &&& forall|a: N, rhs: N, first: N, second: N| #![trigger times(a, rhs, first), times(a, rhs, second)]
        times(a, rhs, first) && times(a, rhs, second) ==> first == second
    &&& forall|a: N, rhs: N, first: N, second: N| #![trigger over(a, rhs, first), over(a, rhs, second)]
        over(a, rhs, first) && over(a, rhs, second) ==> first == second
    &&& forall|a: N, first: N, second: N| #![trigger negate(a, first), negate(a, second)]
        negate(a, first) && negate(a, second) ==> first == second
    &&& forall|a: N, first: N, second: N| #![trigger sqrt(a, first), sqrt(a, second)]
        sqrt(a, first) && sqrt(a, second) ==> first == second
    &&& forall|a: N, first: (N, N), second: (N, N)| #![trigger sin_cos(a, first), sin_cos(a, second)]
        sin_cos(a, first) && sin_cos(a, second) ==> first == second
    &&& forall|a: N, first: N, second: N| #![trigger tan(a, first), tan(a, second)]
        tan(a, first) && tan(a, second) ==> first == second
    &&& forall|a: N, first: N, second: N| #![trigger atan(a, first), atan(a, second)]
        atan(a, first) && atan(a, second) ==> first == second
    &&& forall|a: N, rhs: N, first: N, second: N| #![trigger atan2(a, rhs, first), atan2(a, rhs, second)]
        atan2(a, rhs, first) && atan2(a, rhs, second) ==> first == second
    &&& forall|a: N, rhs: N, first: N, second: N| #![trigger max(a, rhs, first), max(a, rhs, second)]
        max(a, rhs, first) && max(a, rhs, second) ==> first == second
    &&& forall|a: N, lo: N, hi: N, first: N, second: N| #![trigger clamp(a, lo, hi, first), clamp(a, lo, hi, second)]
        clamp(a, lo, hi, first) && clamp(a, lo, hi, second) ==> first == second
    &&& forall|a: N, rhs: N, first: bool, second: bool| #![trigger less(a, rhs, first), less(a, rhs, second)]
        less(a, rhs, first) && less(a, rhs, second) ==> first == second
    &&& forall|a: N, rhs: N, first: bool, second: bool| #![trigger same(a, rhs, first), same(a, rhs, second)]
        same(a, rhs, first) && same(a, rhs, second) ==> first == second
    &&& forall|a: N, first: bool, second: bool| #![trigger is_sign_negative(a, first), is_sign_negative(a, second)]
        is_sign_negative(a, first) && is_sign_negative(a, second) ==> first == second
    &&& forall|a: N, first: N, second: N| #![trigger abs(a, first), abs(a, second)]
        abs(a, first) && abs(a, second) ==> first == second
    &&& forall|a: N, rhs: N, epsilon: N, first: bool, second: bool| #![trigger abs_diff_eq(a, rhs, epsilon, first), abs_diff_eq(a, rhs, epsilon, second)]
        abs_diff_eq(a, rhs, epsilon, first) && abs_diff_eq(a, rhs, epsilon, second) ==> first == second
    &&& forall|a: Vec2<N>, b: Vec2<N>, first: Vec2<N>, second: Vec2<N>| #![trigger flat_sub(a, b, first), flat_sub(a, b, second)]
        flat_sub(a, b, first) && flat_sub(a, b, second) ==> first == second
    &&& forall|a: Vec2<N>, first: (Vec2<N>, N), second: (Vec2<N>, N)| #![trigger flat_normalize(a, first), flat_normalize(a, second)]
        flat_normalize(a, first) && flat_normalize(a, second) ==> first == second
    &&& forall|a: Vec2<N>, b: Vec2<N>, first: N, second: N| #![trigger flat_dot(a, b, first), flat_dot(a, b, second)]
        flat_dot(a, b, first) && flat_dot(a, b, second) ==> first == second
    &&& forall|a: Vec2<N>, b: Vec2<N>, first: N, second: N| #![trigger flat_perp(a, b, first), flat_perp(a, b, second)]
        flat_perp(a, b, first) && flat_perp(a, b, second) ==> first == second
    &&& forall|a: Vec3<N>, b: Vec3<N>, first: Vec3<N>, second: Vec3<N>| #![trigger vec_add(a, b, first), vec_add(a, b, second)]
        vec_add(a, b, first) && vec_add(a, b, second) ==> first == second
    &&& forall|a: Vec3<N>, b: Vec3<N>, first: Vec3<N>, second: Vec3<N>| #![trigger vec_sub(a, b, first), vec_sub(a, b, second)]
        vec_sub(a, b, first) && vec_sub(a, b, second) ==> first == second
    &&& forall|a: Vec3<N>, first: Vec3<N>, second: Vec3<N>| #![trigger vec_neg(a, first), vec_neg(a, second)]
        vec_neg(a, first) && vec_neg(a, second) ==> first == second
    &&& forall|a: Vec3<N>, s: N, first: Vec3<N>, second: Vec3<N>| #![trigger vec_scale(a, s, first), vec_scale(a, s, second)]
        vec_scale(a, s, first) && vec_scale(a, s, second) ==> first == second
    &&& forall|a: Vec3<N>, b: Vec3<N>, t: N, first: Vec3<N>, second: Vec3<N>| #![trigger vec_lerp(a, b, t, first), vec_lerp(a, b, t, second)]
        vec_lerp(a, b, t, first) && vec_lerp(a, b, t, second) ==> first == second
    &&& forall|a: Vec3<N>, b: Vec3<N>, first: N, second: N| #![trigger dot(a, b, first), dot(a, b, second)]
        dot(a, b, first) && dot(a, b, second) ==> first == second
    &&& forall|a: Vec3<N>, b: Vec3<N>, first: Vec3<N>, second: Vec3<N>| #![trigger cross(a, b, first), cross(a, b, second)]
        cross(a, b, first) && cross(a, b, second) ==> first == second
    &&& forall|a: Vec3<N>, first: N, second: N| #![trigger norm(a, first), norm(a, second)]
        norm(a, first) && norm(a, second) ==> first == second
    &&& forall|a: Vec3<N>, first: Vec3<N>, second: Vec3<N>| #![trigger normalize(a, first), normalize(a, second)]
        normalize(a, first) && normalize(a, second) ==> first == second
    &&& forall|a: Vec3<N>, min_norm: N, first: Option<(Vec3<N>, N)>, second: Option<(Vec3<N>, N)>| #![trigger try_normalize(a, min_norm, first), try_normalize(a, min_norm, second)]
        try_normalize(a, min_norm, first) && try_normalize(a, min_norm, second) ==> first == second
    &&& forall|a: Vec3<N>, b: Vec3<N>, first: N, second: N| #![trigger angle(a, b, first), angle(a, b, second)]
        angle(a, b, first) && angle(a, b, second) ==> first == second
    &&& forall|c0: Vec3<N>, c1: Vec3<N>, c2: Vec3<N>, v: Vec3<N>, first: Vec3<N>, second: Vec3<N>| #![trigger cols_mul(c0, c1, c2, v, first), cols_mul(c0, c1, c2, v, second)]
        cols_mul(c0, c1, c2, v, first) && cols_mul(c0, c1, c2, v, second) ==> first == second
    &&& forall|c0: Vec3<N>, c1: Vec3<N>, c2: Vec3<N>, v: Vec3<N>, first: Vec3<N>, second: Vec3<N>| #![trigger cols_tr_mul(c0, c1, c2, v, first), cols_tr_mul(c0, c1, c2, v, second)]
        cols_tr_mul(c0, c1, c2, v, first) && cols_tr_mul(c0, c1, c2, v, second) ==> first == second
    &&& forall|first: Quat<N>, second: Quat<N>| #![trigger rot_identity(first), rot_identity(second)]
        rot_identity(first) && rot_identity(second) ==> first == second
    &&& forall|axis: Vec3<N>, angle: N, first: Quat<N>, second: Quat<N>| #![trigger rot_from_axis_angle(axis, angle, first), rot_from_axis_angle(axis, angle, second)]
        rot_from_axis_angle(axis, angle, first) && rot_from_axis_angle(axis, angle, second) ==> first == second
    &&& forall|dir: Vec3<N>, up: Vec3<N>, first: Quat<N>, second: Quat<N>| #![trigger rot_face_towards(dir, up, first), rot_face_towards(dir, up, second)]
        rot_face_towards(dir, up, first) && rot_face_towards(dir, up, second) ==> first == second
    &&& forall|a: Vec3<N>, b: Vec3<N>, first: Option<Quat<N>>, second: Option<Quat<N>>| #![trigger rot_between(a, b, first), rot_between(a, b, second)]
        rot_between(a, b, first) && rot_between(a, b, second) ==> first == second
    &&& forall|a: Quat<N>, b: Quat<N>, first: Quat<N>, second: Quat<N>| #![trigger rot_mul(a, b, first), rot_mul(a, b, second)]
        rot_mul(a, b, first) && rot_mul(a, b, second) ==> first == second
    &&& forall|a: Quat<N>, first: Quat<N>, second: Quat<N>| #![trigger rot_inverse(a, first), rot_inverse(a, second)]
        rot_inverse(a, first) && rot_inverse(a, second) ==> first == second
    &&& forall|a: Quat<N>, t: N, first: Quat<N>, second: Quat<N>| #![trigger rot_powf(a, t, first), rot_powf(a, t, second)]
        rot_powf(a, t, first) && rot_powf(a, t, second) ==> first == second
    &&& forall|a: Quat<N>, b: Quat<N>, t: N, epsilon: N, first: Option<Quat<N>>, second: Option<Quat<N>>| #![trigger rot_try_slerp(a, b, t, epsilon, first), rot_try_slerp(a, b, t, epsilon, second)]
        rot_try_slerp(a, b, t, epsilon, first) && rot_try_slerp(a, b, t, epsilon, second) ==> first == second
    &&& forall|a: Quat<N>, first: (Quat<N>, N), second: (Quat<N>, N)| #![trigger rot_renormalize(a, first), rot_renormalize(a, second)]
        rot_renormalize(a, first) && rot_renormalize(a, second) ==> first == second
    &&& forall|a: Quat<N>, first: N, second: N| #![trigger rot_angle(a, first), rot_angle(a, second)]
        rot_angle(a, first) && rot_angle(a, second) ==> first == second
    &&& forall|a: Quat<N>, v: Vec3<N>, first: Vec3<N>, second: Vec3<N>| #![trigger rotate(a, v, first), rotate(a, v, second)]
        rotate(a, v, first) && rotate(a, v, second) ==> first == second
    &&& forall|a: Quat<N>, b: Quat<N>, first: bool, second: bool| #![trigger rot_same(a, b, first), rot_same(a, b, second)]
        rot_same(a, b, first) && rot_same(a, b, second) ==> first == second
    &&& forall|a: Quat<N>, b: Quat<N>, epsilon: N, first: bool, second: bool| #![trigger rot_abs_diff_eq(a, b, epsilon, first), rot_abs_diff_eq(a, b, epsilon, second)]
        rot_abs_diff_eq(a, b, epsilon, first) && rot_abs_diff_eq(a, b, epsilon, second) ==> first == second
    &&& forall|a: Iso3<N>, first: Iso3<N>, second: Iso3<N>| #![trigger iso_inverse(a, first), iso_inverse(a, second)]
        iso_inverse(a, first) && iso_inverse(a, second) ==> first == second
    &&& forall|a: Iso3<N>, point: Vec3<N>, first: Vec3<N>, second: Vec3<N>| #![trigger iso_transform_point(a, point, first), iso_transform_point(a, point, second)]
        iso_transform_point(a, point, first) && iso_transform_point(a, point, second) ==> first == second
    &&& forall|a: Iso3<N>, first: Mat4<N>, second: Mat4<N>| #![trigger iso_to_homogeneous(a, first), iso_to_homogeneous(a, second)]
        iso_to_homogeneous(a, first) && iso_to_homogeneous(a, second) ==> first == second
    &&& forall|first: Mat4<N>, second: Mat4<N>| #![trigger mat_zero(first), mat_zero(second)]
        mat_zero(first) && mat_zero(second) ==> first == second
    &&& forall|left: N, right: N, bottom: N, top: N, znear: N, zfar: N, first: Mat4<N>, second: Mat4<N>| #![trigger mat_orthographic(left, right, bottom, top, znear, zfar, first), mat_orthographic(left, right, bottom, top, znear, zfar, second)]
        mat_orthographic(left, right, bottom, top, znear, zfar, first) && mat_orthographic(left, right, bottom, top, znear, zfar, second) ==> first == second
    &&& forall|aspect: N, fovy: N, znear: N, zfar: N, first: Mat4<N>, second: Mat4<N>| #![trigger mat_perspective(aspect, fovy, znear, zfar, first), mat_perspective(aspect, fovy, znear, zfar, second)]
        mat_perspective(aspect, fovy, znear, zfar, first) && mat_perspective(aspect, fovy, znear, zfar, second) ==> first == second
    &&& forall|a: Mat4<N>, b: Mat4<N>, first: Mat4<N>, second: Mat4<N>| #![trigger mat_mul(a, b, first), mat_mul(a, b, second)]
        mat_mul(a, b, first) && mat_mul(a, b, second) ==> first == second
    &&& forall|a: Mat4<N>, first: Option<Mat4<N>>, second: Option<Mat4<N>>| #![trigger mat_try_inverse(a, first), mat_try_inverse(a, second)]
        mat_try_inverse(a, first) && mat_try_inverse(a, second) ==> first == second
    &&& forall|a: N, rhs: N, epsilon: N, max_relative: N, first: bool, second: bool| #![trigger relative_eq(a, rhs, epsilon, max_relative, first), relative_eq(a, rhs, epsilon, max_relative, second)]
        relative_eq(a, rhs, epsilon, max_relative, first) && relative_eq(a, rhs, epsilon, max_relative, second) ==> first == second
    &&& forall|a: N, rhs: N, epsilon: N, max_ulps: u32, first: bool, second: bool| #![trigger ulps_eq(a, rhs, epsilon, max_ulps, first), ulps_eq(a, rhs, epsilon, max_ulps, second)]
        ulps_eq(a, rhs, epsilon, max_ulps, first) && ulps_eq(a, rhs, epsilon, max_ulps, second) ==> first == second
    &&& forall|first: N, second: N| #![trigger default_max_relative(first), default_max_relative(second)]
        default_max_relative(first) && default_max_relative(second) ==> first == second
    &&& forall|first: u32, second: u32| #![trigger default_max_ulps::<N>(first), default_max_ulps::<N>(second)]
        default_max_ulps::<N>(first) && default_max_ulps::<N>(second) ==> first == second
    &&& forall|a: Quat<N>, b: Quat<N>, epsilon: N, max_relative: N, first: bool, second: bool| #![trigger rot_relative_eq(a, b, epsilon, max_relative, first), rot_relative_eq(a, b, epsilon, max_relative, second)]
        rot_relative_eq(a, b, epsilon, max_relative, first) && rot_relative_eq(a, b, epsilon, max_relative, second) ==> first == second
    &&& forall|a: Quat<N>, b: Quat<N>, epsilon: N, max_ulps: u32, first: bool, second: bool| #![trigger rot_ulps_eq(a, b, epsilon, max_ulps, first), rot_ulps_eq(a, b, epsilon, max_ulps, second)]
        rot_ulps_eq(a, b, epsilon, max_ulps, first) && rot_ulps_eq(a, b, epsilon, max_ulps, second) ==> first == second
}

} // verus!
