use approx::{AbsDiffEq, RelativeEq, UlpsEq};
use nalgebra::{
    convert, Isometry3, Matrix3, Matrix4, Point3, Quaternion, RealField, Translation3, Unit,
    UnitQuaternion, Vector2, Vector3,
};
use trackball::bound::{above, below, exceeded, Bound};
use trackball::clamp::{
    advance, anchor, cap_radius, least_zat, rim, settle, turn as signed_turn, Clamp, Probes,
};
use trackball::delta::{smaller, smaller_vec, Delta, Kind};
use simba::scalar::SubsetOf;
use trackball::field::{Cast, Iso3, Mat4, Quat, Scalar, Vec2, Vec3};
use trackball::first::First;
use trackball::fixed::Fixed;
use trackball::frame::{origin, same_vec, x_axis, y_axis, z_axis, Frame};
use trackball::image::Image;
use trackball::orbit::{Orbit, Ray};
use trackball::plane::{signed_angle, Plane};
use trackball::scale::Scale;
use trackball::scope::Scope;
use trackball::slide::Slide;
use trackball::touch::{index_of, Move, Tap, Touch, UnknownFinger};

/// Scalar of the tests: a floating-point number whose algebra is done by `nalgebra`.
#[derive(Clone, Copy, Debug, PartialEq)]
struct Num<T>(T);

fn fin<T: RealField + Copy>(a: Vec2<Num<T>>) -> Vector2<T> {
    Vector2::new(a.x.0, a.y.0)
}

fn fout<T: RealField + Copy>(a: Vector2<T>) -> Vec2<Num<T>> {
    Vec2 { x: Num(a.x), y: Num(a.y) }
}

fn vin<T: RealField + Copy>(a: Vec3<Num<T>>) -> Vector3<T> {
    Vector3::new(a.x.0, a.y.0, a.z.0)
}

fn vout<T: RealField + Copy>(a: Vector3<T>) -> Vec3<Num<T>> {
    Vec3 { x: Num(a.x), y: Num(a.y), z: Num(a.z) }
}

fn qin<T: RealField + Copy>(a: Quat<Num<T>>) -> UnitQuaternion<T> {
    UnitQuaternion::new_unchecked(Quaternion::new(a.w.0, a.i.0, a.j.0, a.k.0))
}

fn qout<T: RealField + Copy>(a: UnitQuaternion<T>) -> Quat<Num<T>> {
    Quat { i: Num(a.i), j: Num(a.j), k: Num(a.k), w: Num(a.w) }
}

fn iin<T: RealField + Copy>(a: Iso3<Num<T>>) -> Isometry3<T> {
    Isometry3::from_parts(Translation3::from(vin(a.vec)), qin(a.rot))
}

fn iout<T: RealField + Copy>(a: Isometry3<T>) -> Iso3<Num<T>> {
    Iso3 { rot: qout(a.rotation), vec: vout(a.translation.vector) }
}

fn min<T: RealField + Copy>(a: Mat4<Num<T>>) -> Matrix4<T> {
    Matrix4::from_fn(|row, col| a.cols[col][row].0)
}

fn mout<T: RealField + Copy>(a: Matrix4<T>) -> Mat4<Num<T>> {
    let col = |col: usize| [Num(a[(0, col)]), Num(a[(1, col)]), Num(a[(2, col)]), Num(a[(3, col)])];
    Mat4 { cols: [col(0), col(1), col(2), col(3)] }
}

impl<T: RealField + Copy> Scalar for Num<T> {
    fn zero() -> Self {
        Num(T::zero())
    }
    fn one() -> Self {
        Num(T::one())
    }
    fn half() -> Self {
        Num(convert(0.5))
    }
    fn tenth() -> Self {
        Num(convert(1e-1))
    }
    fn frac_pi_2() -> Self {
        Num(T::frac_pi_2())
    }
    fn frac_pi_4() -> Self {
        Num(T::frac_pi_4())
    }
    fn default_epsilon() -> Self {
        Num(T::default_epsilon())
    }
    fn min_value() -> Self {
        Num(T::min_value().unwrap())
    }
    fn max_value() -> Self {
        Num(T::max_value().unwrap())
    }
    fn from_count(n: usize) -> Self {
        Num(convert(n as f64))
    }
    fn plus(self, rhs: Self) -> Self {
        Num(self.0 + rhs.0)
    }
    fn minus(self, rhs: Self) -> Self {
        Num(self.0 - rhs.0)
    }
    fn times(self, rhs: Self) -> Self {
        Num(self.0 * rhs.0)
    }
    fn over(self, rhs: Self) -> Self {
        Num(self.0 / rhs.0)
    }
    fn negate(self) -> Self {
        Num(-self.0)
    }
    fn sqrt(self) -> Self {
        Num(self.0.sqrt())
    }
    fn sin_cos(self) -> (Self, Self) {
        let (sin, cos) = self.0.sin_cos();
        (Num(sin), Num(cos))
    }
    fn tan(self) -> Self {
        Num(self.0.tan())
    }
    fn atan(self) -> Self {
        Num(self.0.atan())
    }
    fn atan2(self, rhs: Self) -> Self {
        Num(self.0.atan2(rhs.0))
    }
    fn max(self, rhs: Self) -> Self {
        Num(self.0.max(rhs.0))
    }
    fn clamp(self, lo: Self, hi: Self) -> Self {
        Num(self.0.clamp(lo.0, hi.0))
    }
    fn less(self, rhs: Self) -> bool {
        self.0 < rhs.0
    }
    fn same(self, rhs: Self) -> bool {
        self.0 == rhs.0
    }
    fn is_sign_negative(self) -> bool {
        self.0.is_sign_negative()
    }
    fn abs(self) -> Self {
        Num(self.0.abs())
    }
    fn abs_diff_eq(self, rhs: Self, epsilon: Self) -> bool {
        self.0.abs_diff_eq(&rhs.0, epsilon.0)
    }
    fn flat_sub(a: Vec2<Self>, b: Vec2<Self>) -> Vec2<Self> {
        fout(fin(a) - fin(b))
    }
    fn flat_normalize(a: Vec2<Self>) -> (Vec2<Self>, Self) {
        let (ray, len) = Unit::new_and_get(fin(a));
        (fout(ray.into_inner()), Num(len))
    }
    fn flat_dot(a: Vec2<Self>, b: Vec2<Self>) -> Self {
        Num(fin(a).dot(&fin(b)))
    }
    fn flat_perp(a: Vec2<Self>, b: Vec2<Self>) -> Self {
        Num(fin(a).perp(&fin(b)))
    }
    fn relative_eq(self, rhs: Self, epsilon: Self, max_relative: Self) -> bool {
        self.0.relative_eq(&rhs.0, epsilon.0, max_relative.0)
    }
    fn ulps_eq(self, rhs: Self, epsilon: Self, max_ulps: u32) -> bool {
        self.0.ulps_eq(&rhs.0, epsilon.0, max_ulps)
    }
    fn default_max_relative() -> Self {
        Num(T::default_max_relative())
    }
    fn default_max_ulps() -> u32 {
        T::default_max_ulps()
    }
    fn vec_add(a: Vec3<Self>, b: Vec3<Self>) -> Vec3<Self> {
        vout(vin(a) + vin(b))
    }
    fn vec_sub(a: Vec3<Self>, b: Vec3<Self>) -> Vec3<Self> {
        vout(vin(a) - vin(b))
    }
    fn vec_neg(a: Vec3<Self>) -> Vec3<Self> {
        vout(-vin(a))
    }
    fn vec_scale(a: Vec3<Self>, s: Self) -> Vec3<Self> {
        vout(vin(a) * s.0)
    }
    fn vec_lerp(a: Vec3<Self>, b: Vec3<Self>, t: Self) -> Vec3<Self> {
        vout(vin(a).lerp(&vin(b), t.0))
    }
    fn dot(a: Vec3<Self>, b: Vec3<Self>) -> Self {
        Num(vin(a).dot(&vin(b)))
    }
    fn cross(a: Vec3<Self>, b: Vec3<Self>) -> Vec3<Self> {
        vout(vin(a).cross(&vin(b)))
    }
    fn norm(a: Vec3<Self>) -> Self {
        Num(vin(a).norm())
    }
    fn normalize(a: Vec3<Self>) -> Vec3<Self> {
        vout(vin(a).normalize())
    }
    fn try_normalize(a: Vec3<Self>, min_norm: Self) -> Option<(Vec3<Self>, Self)> {
        Unit::try_new_and_get(vin(a), min_norm.0).map(|(ray, len)| (vout(ray.into_inner()), Num(len)))
    }
    fn angle(a: Vec3<Self>, b: Vec3<Self>) -> Self {
        Num(vin(a).angle(&vin(b)))
    }
    fn cols_mul(c0: Vec3<Self>, c1: Vec3<Self>, c2: Vec3<Self>, v: Vec3<Self>) -> Vec3<Self> {
        vout(Matrix3::from_columns(&[vin(c0), vin(c1), vin(c2)]) * vin(v))
    }
    fn cols_tr_mul(c0: Vec3<Self>, c1: Vec3<Self>, c2: Vec3<Self>, v: Vec3<Self>) -> Vec3<Self> {
        vout(Matrix3::from_columns(&[vin(c0), vin(c1), vin(c2)]).tr_mul(&vin(v)))
    }
    fn rot_identity() -> Quat<Self> {
        qout(UnitQuaternion::identity())
    }
    fn rot_from_axis_angle(axis: Vec3<Self>, angle: Self) -> Quat<Self> {
        qout(UnitQuaternion::from_axis_angle(&Unit::new_unchecked(vin(axis)), angle.0))
    }
    fn rot_face_towards(dir: Vec3<Self>, up: Vec3<Self>) -> Quat<Self> {
        qout(UnitQuaternion::face_towards(&vin(dir), &vin(up)))
    }
    fn rot_between(a: Vec3<Self>, b: Vec3<Self>) -> Option<Quat<Self>> {
        UnitQuaternion::rotation_between(&vin(a), &vin(b)).map(qout)
    }
    fn rot_mul(a: Quat<Self>, b: Quat<Self>) -> Quat<Self> {
        qout(qin(a) * qin(b))
    }
    fn rot_inverse(a: Quat<Self>) -> Quat<Self> {
        qout(qin(a).inverse())
    }
    fn rot_powf(a: Quat<Self>, t: Self) -> Quat<Self> {
        qout(qin(a).powf(t.0))
    }
    fn rot_try_slerp(a: Quat<Self>, b: Quat<Self>, t: Self, epsilon: Self) -> Option<Quat<Self>> {
        qin(a).try_slerp(&qin(b), t.0, epsilon.0).map(qout)
    }
    fn rot_renormalize(a: Quat<Self>) -> (Quat<Self>, Self) {
        let mut rot = qin(a);
        let norm = rot.renormalize();
        (qout(rot), Num(norm))
    }
    fn rot_angle(a: Quat<Self>) -> Self {
        Num(qin(a).angle())
    }
    fn rotate(a: Quat<Self>, v: Vec3<Self>) -> Vec3<Self> {
        vout(qin(a) * vin(v))
    }
    fn rot_same(a: Quat<Self>, b: Quat<Self>) -> bool {
        qin(a) == qin(b)
    }
    fn rot_abs_diff_eq(a: Quat<Self>, b: Quat<Self>, epsilon: Self) -> bool {
        qin(a).abs_diff_eq(&qin(b), epsilon.0)
    }
    fn rot_relative_eq(a: Quat<Self>, b: Quat<Self>, epsilon: Self, max_relative: Self) -> bool {
        qin(a).relative_eq(&qin(b), epsilon.0, max_relative.0)
    }
    fn rot_ulps_eq(a: Quat<Self>, b: Quat<Self>, epsilon: Self, max_ulps: u32) -> bool {
        qin(a).ulps_eq(&qin(b), epsilon.0, max_ulps)
    }
    fn iso_inverse(a: Iso3<Self>) -> Iso3<Self> {
        iout(iin(a).inverse())
    }
    fn iso_transform_point(a: Iso3<Self>, p: Vec3<Self>) -> Vec3<Self> {
        vout((iin(a) * Point3::from(vin(p))).coords)
    }
    fn iso_to_homogeneous(a: Iso3<Self>) -> Mat4<Self> {
        mout(iin(a).to_homogeneous())
    }
    fn mat_zero() -> Mat4<Self> {
        mout(Matrix4::zeros())
    }
    fn mat_orthographic(
        left: Self,
        right: Self,
        bottom: Self,
        top: Self,
        znear: Self,
        zfar: Self,
    ) -> Mat4<Self> {
        mout(Matrix4::new_orthographic(left.0, right.0, bottom.0, top.0, znear.0, zfar.0))
    }
    fn mat_perspective(aspect: Self, fovy: Self, znear: Self, zfar: Self) -> Mat4<Self> {
        mout(Matrix4::new_perspective(aspect.0, fovy.0, znear.0, zfar.0))
    }
    fn mat_mul(a: Mat4<Self>, b: Mat4<Self>) -> Mat4<Self> {
        mout(min(a) * min(b))
    }
    fn mat_try_inverse(a: Mat4<Self>) -> Option<Mat4<Self>> {
        min(a).try_inverse().map(mout)
    }
}

impl<T: RealField + Copy + SubsetOf<M>, M: RealField + Copy> Cast<Num<M>> for Num<T> {
    fn cast(self) -> Num<M> {
        Num(self.0.to_superset())
    }
}

type N = Num<f64>;

const TOLERANCE: f64 = 1e-9;

fn v2(x: f64, y: f64) -> Vec2<N> {
    Vec2 { x: Num(x), y: Num(y) }
}

fn v3(x: f64, y: f64, z: f64) -> Vec3<N> {
    Vec3 { x: Num(x), y: Num(y), z: Num(z) }
}

fn flat(v: Vec2<N>) -> (f64, f64) {
    (v.x.0, v.y.0)
}

fn raw(v: Vec3<N>) -> (f64, f64, f64) {
    (v.x.0, v.y.0, v.z.0)
}

fn near(a: Vec3<N>, b: Vec3<N>) -> bool {
    (vin(a) - vin(b)).norm() <= TOLERANCE
}

fn turn(axis: Vec3<N>, angle: f64) -> Quat<N> {
    N::rot_from_axis_angle(axis, Num(angle))
}

/// Frame looking from five units up the z-axis down at the origin.
fn home() -> Frame<N> {
    Frame::look_at(v3(0.0, 0.0, 0.0), &v3(0.0, 0.0, 5.0), &v3(0.0, 1.0, 0.0))
}

/// Bound whose target box is the cube from -1 to 1.
fn cube() -> Bound<N> {
    let mut bound = Bound::<N>::default();
    bound.min_target = v3(-1.0, -1.0, -1.0);
    bound.max_target = v3(1.0, 1.0, 1.0);
    bound
}

fn samples() -> [Delta<N>; 6] {
    [
        Delta::Frame,
        Delta::First { pitch: Num(0.25), yaw: Num(0.0), yaw_axis: v3(0.0, 1.0, 0.0) },
        Delta::Track { vec: v3(0.5, -0.25, 0.125) },
        Delta::Orbit { rot: turn(v3(0.0, 1.0, 0.0), 0.75), pos: v3(0.5, 0.0, -1.0) },
        Delta::Slide { vec: v3(1.0, 2.0, 3.0) },
        Delta::Scale { rat: Num(1.0), pos: v3(0.0, 1.0, 0.0) },
    ]
}

#[test]
fn plane_sign_convention() {
    let plane = Plane::<N>::new(v3(0.0, 1.0, 0.0), Num(5.0));
    assert_eq!(raw(plane.project_point(&v3(0.0, 0.0, 0.0))), (0.0, 5.0, 0.0));
    assert_eq!(plane.distance(), Num(5.0));
    assert_eq!(plane.bias, Num(-5.0));
    let plane = Plane::<N>::new(v3(0.0, 1.0, 0.0), Num(-5.0));
    assert_eq!(raw(plane.project_point(&v3(0.0, 0.0, 0.0))), (0.0, -5.0, 0.0));
    assert_eq!(plane.distance(), Num(-5.0));
    assert_eq!(plane.bias, Num(5.0));
}

#[test]
fn plane_transform_by_rotates_then_translates() {
    let iso = Isometry3::new(
        Vector3::new(-5.0, 0.0, 0.0),
        Vector3::new(0.0, 0.0, std::f64::consts::FRAC_PI_2),
    );
    let plane = Plane::<N>::new(v3(0.0, 1.0, 0.0), Num(5.0)).transform_by(&iout(iso));
    let expected = Plane::<N>::new(v3(-1.0, 0.0, 0.0), Num(10.0));
    assert!(plane.abs_diff_eq(&expected, Num(1e-12)));
    assert!(!plane.abs_diff_eq(&Plane::new(v3(-1.0, 0.0, 0.0), Num(9.0)), Num(1e-12)));
}

#[test]
fn plane_with_point_contains_point() {
    let plane = Plane::<N>::with_point(v3(0.0, 0.0, 1.0), &v3(3.0, 4.0, 2.0));
    assert_eq!(plane.distance(), Num(2.0));
    assert_eq!(plane.distance_from(&v3(3.0, 4.0, 2.0)), Num(0.0));
    assert_eq!(plane.distance_from(&v3(0.0, 0.0, 5.0)), Num(-3.0));
    assert_eq!(raw(plane.project_vector(&v3(1.0, 1.0, 7.0))), (1.0, 1.0, 2.0));
    assert!(near(plane.project_axis(&v3(0.6, 0.0, 0.8)), v3(0.6, 0.0, 2.0).clone_normalized()));
}

trait Normalized {
    fn clone_normalized(self) -> Self;
}

impl Normalized for Vec3<N> {
    fn clone_normalized(self) -> Self {
        N::normalize(self)
    }
}

#[test]
fn plane_angle_between_is_signed_by_normal() {
    let plane = Plane::<N>::new(v3(0.0, 0.0, 1.0), Num(0.0));
    let quarter = std::f64::consts::FRAC_PI_2;
    let a = v3(1.0, 0.0, 0.0);
    let b = v3(0.0, 1.0, 0.0);
    assert!((plane.angle_between(&a, &b).0 - quarter).abs() <= TOLERANCE);
    assert!((plane.angle_between(&b, &a).0 + quarter).abs() <= TOLERANCE);
    assert_eq!(signed_angle(Num(0.5), false), Num(0.5));
    assert_eq!(signed_angle(Num(0.5), true), Num(-0.5));
}

#[test]
fn plane_translate_and_rotate() {
    let plane = Plane::<N>::new(v3(0.0, 1.0, 0.0), Num(5.0));
    let moved = plane.translate_by(&v3(1.0, 2.0, 3.0));
    assert_eq!(moved.distance(), Num(7.0));
    assert_eq!(raw(moved.normal), (0.0, 1.0, 0.0));
    let turned = plane.rotate_by(&turn(v3(0.0, 0.0, 1.0), std::f64::consts::FRAC_PI_2));
    assert!(near(turned.normal, v3(-1.0, 0.0, 0.0)));
    assert_eq!(turned.bias, Num(-5.0));
}

#[test]
fn frame_look_at_places_eye_and_target() {
    let frame = Frame::<N>::look_at(v3(1.0, 2.0, 3.0), &v3(1.0, 2.0, 8.0), &v3(0.0, 1.0, 0.0));
    assert_eq!(raw(*frame.target()), (1.0, 2.0, 3.0));
    assert_eq!(frame.distance(), Num(5.0));
    assert!(near(frame.eye(), v3(1.0, 2.0, 8.0)));
    assert!(near(frame.pitch_axis(), v3(1.0, 0.0, 0.0)));
    assert!(near(frame.yaw_axis(), v3(0.0, 1.0, 0.0)));
    assert!(near(frame.roll_axis(), v3(0.0, 0.0, 1.0)));
    assert_eq!(raw(frame.local_pitch_axis()), (1.0, 0.0, 0.0));
    assert_eq!(raw(frame.local_yaw_axis()), (0.0, 1.0, 0.0));
    assert_eq!(raw(frame.local_roll_axis()), (0.0, 0.0, 1.0));
}

#[test]
fn frame_set_target_preserves_eye() {
    let mut frame = home();
    let eye = frame.eye();
    frame.set_target(v3(0.0, 0.0, 2.0));
    assert!(near(frame.eye(), eye));
    assert!((frame.distance().0 - 3.0).abs() <= TOLERANCE);
    assert_eq!(raw(*frame.target()), (0.0, 0.0, 2.0));
}

#[test]
fn frame_set_eye_preserves_target() {
    let mut frame = home();
    frame.set_eye(&v3(3.0, 0.0, 0.0), &v3(0.0, 1.0, 0.0));
    assert_eq!(raw(*frame.target()), (0.0, 0.0, 0.0));
    assert!(near(frame.eye(), v3(3.0, 0.0, 0.0)));
    assert!((frame.distance().0 - 3.0).abs() <= TOLERANCE);
}

#[test]
fn frame_default_is_at_origin() {
    let frame = Frame::<N>::default();
    assert_eq!(raw(*frame.target()), (0.0, 0.0, 0.0));
    assert_eq!(raw(frame.eye()), (0.0, 0.0, 0.0));
    assert_eq!(frame.distance(), Num(0.0));
    assert_eq!(frame.rot.w, Num(1.0));
    let mut touch = Touch::<N>::default();
    assert_eq!(touch.fingers(), 0);
    assert!(touch.compute(1, v2(0.0, 0.0), 0).is_some());
    let (_, _, rot, rat) = touch.compute(2, v2(1.0, 0.0), 0).unwrap();
    assert_eq!((rot, rat), (Num(0.0), Num(1.0)));
}

#[test]
fn frame_scale_and_distance() {
    let mut frame = home();
    frame.scale(Num(2.0));
    assert_eq!(frame.distance(), Num(10.0));
    frame.set_distance(Num(4.0));
    assert_eq!(frame.distance(), Num(4.0));
    assert_eq!(raw(*frame.target()), (0.0, 0.0, 0.0));
}

#[test]
fn frame_slides_in_world_and_camera_space() {
    let mut frame = home();
    frame.orbit(&turn(v3(0.0, 1.0, 0.0), std::f64::consts::FRAC_PI_2));
    let mut world = frame;
    world.slide(&v3(1.0, 0.0, 0.0));
    assert!(near(*world.target(), v3(1.0, 0.0, 0.0)));
    let mut local = frame;
    local.local_slide(&v3(1.0, 0.0, 0.0));
    assert!(near(*local.target(), v3(0.0, 0.0, -1.0)));
}

#[test]
fn frame_orbit_around_keeps_pivot() {
    let mut frame = home();
    let pivot = v3(1.0, 0.0, 0.0);
    let before = N::vec_sub(frame.eye(), pivot);
    frame.orbit_around(&turn(v3(0.0, 1.0, 0.0), 0.5), &pivot);
    let after = N::vec_sub(frame.eye(), pivot);
    assert!((N::norm(before).0 - N::norm(after).0).abs() <= TOLERANCE);
    assert!(near(*frame.target(), v3(1.0 - 0.5f64.cos(), 0.0, 0.5f64.sin())));
}

#[test]
fn frame_local_orbit_around_slides_then_rotates() {
    let rot = turn(v3(0.0, 1.0, 0.0), 0.5);
    let pivot = v3(1.0, 0.0, 0.0);
    let mut frame = home();
    frame.local_orbit_around(&rot, &pivot);
    let mut expected = home();
    expected.local_slide(&N::vec_sub(pivot, N::rotate(rot, pivot)));
    expected.local_orbit(&rot);
    assert!(frame.abs_diff_eq(&expected, Num(0.0)));
}

#[test]
fn frame_scale_around_pivot() {
    let mut frame = home();
    frame.local_scale_around(Num(0.5), &v3(2.0, 0.0, 0.0));
    assert!(near(*frame.target(), v3(1.0, 0.0, 0.0)));
    assert_eq!(frame.distance(), Num(2.5));
    let mut frame = home();
    frame.scale_around(Num(0.5), &v3(2.0, 0.0, 0.0));
    assert!(near(*frame.target(), v3(1.0, 0.0, 0.0)));
    assert_eq!(frame.distance(), Num(2.5));
}

#[test]
fn frame_look_around_keeps_eye() {
    let mut frame = home();
    let eye = frame.eye();
    frame.look_around(Num(0.25), Num(0.5), &v3(0.0, 1.0, 0.0));
    assert!(near(frame.eye(), eye));
    assert_eq!(frame.distance(), Num(5.0));
    assert!(!near(*frame.target(), v3(0.0, 0.0, 0.0)));
}

#[test]
fn frame_views_are_inverse() {
    let mut frame = home();
    frame.orbit(&turn(v3(0.0, 1.0, 0.0), 0.5));
    frame.slide(&v3(1.0, 2.0, 3.0));
    let view = frame.view();
    let back = frame.inverse_view();
    let point = v3(0.5, -0.25, 2.0);
    let there = N::iso_transform_point(view, point);
    assert!(near(N::iso_transform_point(back, there), point));
    assert!(near(N::iso_transform_point(view, v3(0.0, 0.0, 0.0)), frame.eye()));
}

#[test]
fn frame_try_lerp_slerp_interpolates() {
    let from = home();
    let mut to = home();
    to.orbit(&turn(v3(0.0, 1.0, 0.0), 1.0));
    to.slide(&v3(2.0, 0.0, 0.0));
    to.set_distance(Num(7.0));
    let half = from.try_lerp_slerp(&to, Num(0.5), Num(1e-9)).unwrap();
    assert!(near(*half.target(), v3(1.0, 0.0, 0.0)));
    assert!((half.distance().0 - 6.0).abs() <= TOLERANCE);
    let mut expected = home();
    expected.orbit(&turn(v3(0.0, 1.0, 0.0), 0.5));
    assert!(N::rot_abs_diff_eq(half.rot, expected.rot, Num(TOLERANCE)));
    let mut close = home();
    close.orbit(&turn(v3(0.0, 1.0, 0.0), 1e-4));
    assert!(from.try_lerp_slerp(&close, Num(0.5), Num(1e-3)).is_none());
    assert!(from.try_lerp_slerp(&close, Num(0.5), Num(1e-9)).is_some());
}

#[test]
fn frame_renormalize_returns_norm() {
    let mut frame = home();
    frame.rot = Quat { i: Num(0.0), j: Num(0.0), k: Num(0.0), w: Num(2.0) };
    assert_eq!(frame.renormalize(), Num(2.0));
    assert_eq!(frame.rot.w, Num(1.0));
}

#[test]
fn delta_identity_yields_frame() {
    let mut frame = home();
    frame.orbit(&turn(v3(0.0, 1.0, 0.0), 0.5));
    frame.slide(&v3(1.0, 2.0, 3.0));
    let moved = Delta::<N>::Frame.transform(&frame);
    assert!(moved.same(&frame));
    assert_eq!(raw(moved.pos), raw(frame.pos));
    assert_eq!(moved.zat, frame.zat);
    assert!(Delta::<N>::default().same(&Delta::Frame));
}

#[test]
fn delta_transform_applies_operation() {
    let frame = home();
    let slid = Delta::Slide { vec: v3(1.0, 2.0, 3.0) }.transform(&frame);
    assert!(near(slid.pos, v3(1.0, 2.0, 3.0)));
    let scaled = Delta::Scale { rat: Num(2.0), pos: v3(0.0, 0.0, 0.0) }.transform(&frame);
    assert_eq!(scaled.zat, Num(10.0));
    let followed = Delta::Track { vec: v3(0.0, 0.0, 1.0) }.transform(&frame);
    assert!(near(followed.eye(), frame.eye()));
    assert!((followed.zat.0 - 4.0).abs() <= TOLERANCE);
    let rot = turn(v3(0.0, 1.0, 0.0), 0.5);
    let orbited = Delta::Orbit { rot, pos: v3(0.0, 0.0, 0.0) }.transform(&frame);
    assert!(near(orbited.eye(), v3(5.0 * 0.5f64.sin(), 0.0, 5.0 * 0.5f64.cos())));
    let looked = Delta::First { pitch: Num(0.0), yaw: Num(0.5), yaw_axis: v3(0.0, 1.0, 0.0) }
        .transform(&frame);
    assert!(near(looked.eye(), frame.eye()));
}

#[test]
fn delta_inverse_reconstructs_frame() {
    let mut frame = home();
    frame.orbit(&turn(v3(1.0, 0.0, 0.0), -0.25));
    let along = Delta::Track { vec: N::vec_scale(frame.roll_axis(), Num(0.5)) };
    let back = along.inverse().transform(&along.transform(&frame));
    assert!(back.abs_diff_eq(&frame, Num(TOLERANCE)));
    for delta in samples() {
        if delta.kind() == Kind::Track {
            continue;
        }
        let back = delta.inverse().transform(&delta.transform(&frame));
        assert!(back.abs_diff_eq(&frame, Num(TOLERANCE)), "{:?}", delta);
    }
}

#[test]
fn delta_inverse_reflects_ratio_about_one() {
    let delta = Delta::Scale { rat: Num(0.75), pos: v3(1.0, 0.0, 0.0) };
    match delta.inverse() {
        Delta::Scale { rat, pos } => {
            assert_eq!(rat, Num(1.25));
            assert_eq!(raw(pos), (1.0, 0.0, 0.0));
        }
        other => panic!("{:?}", other),
    }
    match (Delta::Slide { vec: v3(1.0, -2.0, 3.0) }).inverse() {
        Delta::Slide { vec } => assert_eq!(raw(vec), (-1.0, 2.0, -3.0)),
        other => panic!("{:?}", other),
    }
}

#[test]
fn delta_lerp_slerp_endpoints() {
    let frame = home();
    let double = Delta::Scale { rat: Num(2.0), pos: v3(0.0, 0.0, 0.0) };
    assert!(double.lerp_slerp(Num(1.0)).same(&double));
    assert!(double.lerp_slerp(Num(0.0)).transform(&frame).same(&frame));
    for delta in samples() {
        let whole = delta.lerp_slerp(Num(1.0));
        assert!(whole.transform(&frame).abs_diff_eq(&delta.transform(&frame), Num(TOLERANCE)));
        assert_eq!(whole.kind(), delta.kind());
        let none = delta.lerp_slerp(Num(0.0));
        assert!(none.transform(&frame).abs_diff_eq(&frame, Num(TOLERANCE)), "{:?}", delta);
    }
    let slide = Delta::Slide { vec: v3(1.0, 2.0, 3.0) };
    assert!(slide.lerp_slerp(Num(1.0)).same(&slide));
    match slide.lerp_slerp(Num(0.5)) {
        Delta::Slide { vec } => assert_eq!(raw(vec), (0.5, 1.0, 1.5)),
        other => panic!("{:?}", other),
    }
    match (Delta::Scale { rat: Num(3.0), pos: v3(0.0, 0.0, 0.0) }).lerp_slerp(Num(0.5)) {
        Delta::Scale { rat, .. } => assert_eq!(rat, Num(2.0)),
        other => panic!("{:?}", other),
    }
}

#[test]
fn delta_same_compares_parameters() {
    let slide = Delta::Slide { vec: v3(1.0, 2.0, 3.0) };
    assert!(slide.same(&slide));
    assert!(!slide.same(&Delta::Slide { vec: v3(1.0, 2.0, 4.0) }));
    assert!(!slide.same(&Delta::Track { vec: v3(1.0, 2.0, 3.0) }));
    assert!(!slide.same(&Delta::Frame));
    assert_eq!(slide.kind(), Kind::Slide);
    assert_eq!(Delta::<N>::Frame.kind(), Kind::Frame);
    let nan = Delta::Slide { vec: v3(f64::NAN, 0.0, 0.0) };
    assert!(!nan.same(&nan));
    assert!(same_vec(&v3(1.0, 2.0, 3.0), &v3(1.0, 2.0, 3.0)));
}

#[test]
fn delta_minimum_picks_least_movement() {
    let slide = Delta::Slide { vec: v3(1.0, -2.0, 3.0) };
    let other = Delta::Slide { vec: v3(-0.5, 4.0, 3.0) };
    assert!(Delta::<N>::Frame.minimum(slide).unwrap().same(&slide));
    assert!(slide.minimum(Delta::Frame).unwrap().same(&slide));
    assert!(Delta::<N>::Frame.minimum(Delta::Frame).unwrap().same(&Delta::Frame));
    assert!(slide.minimum(Delta::Track { vec: v3(0.0, 0.0, 0.0) }).is_none());
    match slide.minimum(other) {
        Some(Delta::Slide { vec }) => assert_eq!(raw(vec), (-0.5, -2.0, 3.0)),
        found => panic!("{:?}", found),
    }
    let wide = Delta::Orbit { rot: turn(v3(0.0, 1.0, 0.0), 0.75), pos: v3(0.0, 0.0, 0.0) };
    let tight = Delta::Orbit { rot: turn(v3(1.0, 0.0, 0.0), -0.5), pos: v3(0.0, 0.0, 0.0) };
    assert!(wide.minimum(tight).unwrap().same(&tight));
    assert!(tight.minimum(wide).unwrap().same(&tight));
    let far = Delta::Scale { rat: Num(0.5), pos: v3(0.0, 0.0, 0.0) };
    let close = Delta::Scale { rat: Num(1.25), pos: v3(0.0, 0.0, 0.0) };
    assert!(far.minimum(close).unwrap().same(&close));
    match (Delta::First { pitch: Num(0.5), yaw: Num(-0.25), yaw_axis: v3(0.0, 1.0, 0.0) })
        .minimum(Delta::First { pitch: Num(-0.25), yaw: Num(1.0), yaw_axis: v3(0.0, 1.0, 0.0) })
    {
        Some(Delta::First { pitch, yaw, .. }) => {
            assert_eq!(pitch, Num(-0.25));
            assert_eq!(yaw, Num(-0.25));
        }
        found => panic!("{:?}", found),
    }
    assert_eq!(raw(smaller_vec(v3(1.0, -2.0, 3.0), v3(-0.5, 4.0, -3.0))), (-0.5, -2.0, 3.0));
    assert_eq!(smaller(Num(-1.0), Num(1.0)), Num(-1.0));
    assert_eq!(smaller(Num(2.0), Num(-1.0)), Num(-1.0));
}

#[test]
fn orbit_first_sample_and_duplicate_yield_nothing() {
    let max = v2(800.0, 600.0);
    let mut orbit = Orbit::<N>::default();
    assert!(orbit.compute(&v2(500.0, 300.0), &max).is_none());
    assert!(orbit.vec.is_some());
    assert!(orbit.compute(&v2(500.0, 300.0), &max).is_none());
    assert!(orbit.compute(&v2(500.0, 300.0), &max).is_none());
    assert!(orbit.compute(&v2(510.0, 300.0), &max).is_some());
    orbit.discard();
    assert!(orbit.vec.is_none());
    assert!(orbit.compute(&v2(520.0, 300.0), &max).is_none());
}

#[test]
fn orbit_radial_displacements_induce_equal_arcs() {
    let max = v2(800.0, 600.0);
    for start in [450.0, 600.0, 700.0] {
        let mut orbit = Orbit::<N>::default();
        assert!(orbit.compute(&v2(start, 300.0), &max).is_none());
        let rot = orbit.compute(&v2(start + 50.0, 300.0), &max).unwrap();
        assert!((qin(rot).angle() - 50.0 / 400.0).abs() <= TOLERANCE);
        assert!((qin(rot).axis().unwrap().y.abs() - 1.0).abs() <= TOLERANCE);
    }
    let mut orbit = Orbit::<N>::default();
    assert!(orbit.compute(&v2(400.0, 350.0), &max).is_none());
    let rot = orbit.compute(&v2(400.0, 450.0), &max).unwrap();
    assert!((qin(rot).angle() - 100.0 / 400.0).abs() <= TOLERANCE);
}

#[test]
fn orbit_clamps_position_to_screen() {
    let max = v2(800.0, 600.0);
    let mut inside = Orbit::<N>::default();
    assert!(inside.compute(&v2(800.0, 300.0), &max).is_none());
    let mut outside = Orbit::<N>::default();
    assert!(outside.compute(&v2(900.0, 300.0), &max).is_none());
    assert_eq!(raw(inside.vec.unwrap().dir), raw(outside.vec.unwrap().dir));
    assert_eq!(inside.vec.unwrap().len, outside.vec.unwrap().len);
    assert_eq!(inside.vec.unwrap().len, Num(400.0));
}

#[test]
fn orbit_center_is_pole() {
    let ray = Orbit::<N>::locate(&v2(0.0, 0.0));
    assert_eq!(raw(ray.dir), (0.0, 0.0, 1.0));
    assert_eq!(ray.len, Num(0.0));
    let ray = Orbit::<N>::locate(&v2(3.0, 4.0));
    assert!(near(ray.dir, v3(0.6, 0.8, 0.0)));
    assert_eq!(ray.len, Num(5.0));
    let old = Ray { dir: v3(1.0, 0.0, 0.0), len: Num(100.0) };
    assert!(Orbit::<N>::induce(&old, &old, &v2(400.0, 300.0)).is_none());
}

#[test]
fn clamp_identity_and_free_motion_pass() {
    let bound = cube();
    let frame = home();
    let scope = Scope::<N>::default();
    assert!(bound.compute(&frame, &scope, &Delta::Frame).is_none());
    assert!(bound.compute(&frame, &scope, &Delta::Slide { vec: v3(0.5, 0.5, 0.0) }).is_none());
    assert!(bound.compute(&frame, &scope, &Delta::Track { vec: v3(0.5, 0.0, 0.0) }).is_none());
    let rot = turn(v3(0.0, 1.0, 0.0), 0.5);
    assert!(bound.compute(&frame, &scope, &Delta::Orbit { rot, pos: origin() }).is_none());
    assert!(bound.compute(&frame, &scope, &Delta::Scale { rat: Num(2.0), pos: origin() }).is_none());
    assert_eq!(bound.loops(), 10);
}

#[test]
fn clamp_slide_lands_on_face() {
    let bound = cube();
    let frame = home();
    let scope = Scope::<N>::default();
    let delta = Delta::Slide { vec: v3(2.0, 0.0, 0.0) };
    let (clamped, loops) = bound.compute(&frame, &scope, &delta).unwrap();
    assert!(loops <= 3);
    assert_eq!(loops, 1);
    let landed = clamped.transform(&frame);
    assert_eq!(raw(*landed.target()), (1.0, 0.0, 0.0));
    assert!(bound.target(&landed).is_none());
}

#[test]
fn clamp_slide_glides_into_corner() {
    let bound = cube();
    let frame = home();
    let scope = Scope::<N>::default();
    let delta = Delta::Slide { vec: v3(2.0, 3.0, 0.5) };
    let (clamped, loops) = bound.compute(&frame, &scope, &delta).unwrap();
    assert!(loops <= bound.loops());
    assert_eq!(loops, 2);
    let landed = clamped.transform(&frame);
    assert_eq!(raw(*landed.target()), (1.0, 1.0, 0.5));
    assert!(bound.target(&landed).is_none());
    assert!(bound.eye(&landed).is_none());
    assert!(bound.up(&landed).is_none());
}

#[test]
fn clamp_slide_respects_eye_box() {
    let mut bound = Bound::<N>::default();
    bound.max_eye = v3(1.0, f64::MAX, f64::MAX);
    let frame = home();
    let scope = Scope::<N>::default();
    let delta = Delta::Slide { vec: v3(2.0, 1.0, 0.0) };
    let (clamped, loops) = bound.compute(&frame, &scope, &delta).unwrap();
    assert_eq!(loops, 1);
    let landed = clamped.transform(&frame);
    assert!(near(landed.eye(), v3(1.0, 1.0, 5.0)));
}

#[test]
fn clamp_track_glides_along_face() {
    let bound = cube();
    let frame = home();
    let scope = Scope::<N>::default();
    let delta = Delta::Track { vec: v3(0.5, 2.0, 0.0) };
    let (clamped, loops) = bound.compute(&frame, &scope, &delta).unwrap();
    assert_eq!(loops, 1);
    let landed = clamped.transform(&frame);
    assert!(near(*landed.target(), v3(0.5, 1.0, 0.0)));
    assert!(bound.target(&landed).is_none());
}

#[test]
fn clamp_scale_stops_at_distance_bound() {
    let mut bound = Bound::<N>::default();
    bound.min_distance = Num(1.0);
    bound.max_distance = Num(10.0);
    let frame = home();
    let scope = Scope::<N>::default();
    let delta = Delta::Scale { rat: Num(4.0), pos: origin() };
    assert_eq!(delta.transform(&frame).distance(), Num(20.0));
    let (clamped, loops) = bound.compute(&frame, &scope, &delta).unwrap();
    assert!(loops <= bound.loops());
    assert!(clamped.same(&Delta::Frame));
    let landed = clamped.transform(&frame);
    assert!(landed.distance().0 <= 10.0 + bound.hysteresis.0);
    assert!(landed.distance().0 >= 1.0 - bound.hysteresis.0);
    assert!(bound.eye(&landed).is_none());
    let inside = Delta::Scale { rat: Num(2.0), pos: origin() };
    assert!(bound.compute(&frame, &scope, &inside).is_none());
    let shrink = Delta::Scale { rat: Num(0.1), pos: origin() };
    assert!(bound.compute(&frame, &scope, &shrink).unwrap().0.same(&Delta::Frame));
}

#[test]
fn clamp_scale_lands_on_near_plane() {
    let bound = Bound::<N>::default();
    let frame = home();
    let mut scope = Scope::<N>::default();
    scope.set_scale(true);
    let delta = Delta::Scale { rat: Num(0.01), pos: origin() };
    let (clamped, loops) = bound.compute(&frame, &scope, &delta).unwrap();
    assert!(loops <= bound.loops());
    let least = 0.1 * (1.0 + f64::EPSILON.sqrt());
    match clamped {
        Delta::Scale { rat, .. } => assert_eq!(rat, Num(least / 5.0)),
        other => panic!("{:?}", other),
    }
    assert!((clamped.transform(&frame).distance().0 - least).abs() <= TOLERANCE);
}

#[test]
fn clamp_stops_off_origin_pivots() {
    let bound = Bound::<N>::default();
    let frame = home();
    let scope = Scope::<N>::default();
    let rot = turn(v3(0.0, 1.0, 0.0), 0.5);
    let (clamped, loops) =
        bound.compute(&frame, &scope, &Delta::Orbit { rot, pos: v3(1.0, 0.0, 0.0) }).unwrap();
    assert!(clamped.same(&Delta::Frame));
    assert_eq!(loops, 0);
    let (clamped, loops) = bound
        .compute(&frame, &scope, &Delta::Scale { rat: Num(2.0), pos: v3(0.0, 1.0, 0.0) })
        .unwrap();
    assert!(clamped.same(&Delta::Frame));
    assert_eq!(loops, 0);
}

#[test]
fn clamp_orbit_glides_along_eye_plane() {
    let mut bound = Bound::<N>::default();
    bound.max_eye = v3(f64::MAX, 1.0, f64::MAX);
    let frame = home();
    let scope = Scope::<N>::default();
    let delta = Delta::Orbit { rot: turn(v3(1.0, 0.0, 0.0), -0.5), pos: origin() };
    assert!(delta.transform(&frame).eye().y.0 > 2.0);
    let (clamped, loops) = bound.compute(&frame, &scope, &delta).unwrap();
    assert!(loops <= bound.loops());
    assert_eq!(clamped.kind(), Kind::Orbit);
    let landed = clamped.transform(&frame);
    assert!((landed.eye().y.0 - 1.0).abs() <= 1e-6);
    assert_eq!(landed.distance(), Num(5.0));
    assert!((N::norm(landed.eye()).0 - 5.0).abs() <= 1e-6);
    assert!(bound.eye(&landed).is_none());
}

#[test]
fn clamp_orbit_stops_at_up_bound() {
    let mut bound = Bound::<N>::default();
    bound.min_up = v3(f64::MIN, 0.9, f64::MIN);
    let frame = home();
    let scope = Scope::<N>::default();
    let delta = Delta::Orbit { rot: turn(v3(1.0, 0.0, 0.0), -1.0), pos: origin() };
    let (clamped, loops) = bound.compute(&frame, &scope, &delta).unwrap();
    assert!(clamped.same(&Delta::Frame));
    assert!(loops <= bound.loops());
    assert!(bound.up(&frame).is_none());
    assert!(bound.up(&delta.transform(&frame)).is_some());
}

#[test]
fn clamp_first_person_glides_along_target_plane() {
    let bound = cube();
    let frame = home();
    let scope = Scope::<N>::default();
    let delta = Delta::First { pitch: Num(0.0), yaw: Num(0.5), yaw_axis: v3(0.0, 1.0, 0.0) };
    assert!(bound.target(&delta.transform(&frame)).is_some());
    let (clamped, loops) = bound.compute(&frame, &scope, &delta).unwrap();
    assert!(loops <= bound.loops());
    assert_eq!(clamped.kind(), Kind::First);
    let landed = clamped.transform(&frame);
    assert!(near(landed.eye(), frame.eye()));
    assert!((landed.target().x.0.abs() - 1.0).abs() <= 1e-6);
    assert!((landed.target().z.0 - (5.0 - 24f64.sqrt())).abs() <= 1e-6);
    assert!(bound.target(&landed).is_none());
    match clamped {
        Delta::First { pitch, yaw, yaw_axis } => {
            assert!(pitch.0.abs() <= 1e-6);
            assert!((yaw.0.abs() - (1.0f64 / 24f64.sqrt()).atan()).abs() <= 1e-6);
            assert_eq!(raw(yaw_axis), (0.0, 1.0, 0.0));
        }
        other => panic!("{:?}", other),
    }
    let small = Delta::First { pitch: Num(0.0), yaw: Num(0.1), yaw_axis: v3(0.0, 1.0, 0.0) };
    assert!(bound.compute(&frame, &scope, &small).is_none());
}

#[test]
fn clamp_validation_steps() {
    assert_eq!(advance(false, 0, 10), None);
    assert_eq!(advance(true, 0, 10), Some(1));
    assert_eq!(advance(true, 9, 10), Some(10));
    assert_eq!(advance(true, 10, 10), None);
    assert_eq!(advance(true, usize::MAX, usize::MAX), None);
    assert_eq!(advance(true, 0, 0), None);
    let slide = Delta::Slide { vec: v3(1.0, 0.0, 0.0) };
    assert!(settle(&slide, slide, 3).is_none());
    let (least, loops) = settle(&slide, Delta::<N>::Frame, 3).unwrap();
    assert!(least.same(&Delta::Frame));
    assert_eq!(loops, 3);
    let at = anchor(&home());
    assert_eq!(raw(at.target), (0.0, 0.0, 0.0));
    assert!(near(at.eye, v3(0.0, 0.0, 5.0)));
    assert!(near(at.seen, v3(0.0, 0.0, 5.0)));
    assert_eq!(at.zat, Num(5.0));
    let mut scope = Scope::<N>::default();
    scope.set_scale(true);
    assert_eq!(least_zat(&scope), Num(0.1 * (1.0 + f64::EPSILON.sqrt())));
    let plane = Plane::<N>::new(v3(1.0, 0.0, 0.0), Num(3.0));
    let on = rim(&v3(0.0, 0.0, 0.0), Num(5.0), &plane, &v3(4.0, 0.0, 3.0));
    assert!(near(on, v3(3.0, 0.0, 4.0)));
    let angle = signed_turn(v3(0.0, 1.0, 0.0), &v3(0.0, 0.0, 0.0), &v3(0.0, 5.0, 1.0), &v3(1.0, -2.0, 0.0));
    assert!((angle.0 - std::f64::consts::FRAC_PI_2).abs() <= TOLERANCE);
    assert_eq!(cap_radius(Num(5.0), Num(3.0)), Num(4.0));
    assert_eq!(cap_radius(Num(5.0), Num(5.0)), Num(0.0));
}

#[test]
fn bound_reports_first_exceeded_face() {
    let (x, y, z) = (x_axis::<N>(), y_axis::<N>(), z_axis::<N>());
    let probe = below(x, Num(-1.0), &v3(-2.0, 0.0, 0.0), Num(1e-8));
    assert!(probe.beyond);
    assert_eq!(probe.face.distance(), Num(-1.0));
    assert!(!below(x, Num(-1.0), &v3(-1.0, 0.0, 0.0), Num(1e-8)).beyond);
    assert!(above(y, Num(1.0), &v3(0.0, 2.0, 0.0), Num(-1e-8)).beyond);
    assert!(!above(y, Num(1.0), &v3(0.0, 1.0, 0.0), Num(-1e-8)).beyond);
    let min = v3(-1.0, -1.0, -1.0);
    let max = v3(1.0, 1.0, 1.0);
    let face = exceeded(x, y, z, &min, &max, &v3(2.0, -3.0, 4.0), Num(1e-8)).unwrap();
    assert_eq!(raw(face.normal), (1.0, 0.0, 0.0));
    assert_eq!(face.distance(), Num(1.0));
    let face = exceeded(x, y, z, &min, &max, &v3(0.0, -3.0, 4.0), Num(1e-8)).unwrap();
    assert_eq!(raw(face.normal), (0.0, 1.0, 0.0));
    assert_eq!(face.distance(), Num(-1.0));
    let face = exceeded(x, y, z, &min, &max, &v3(0.0, 0.0, 4.0), Num(1e-8)).unwrap();
    assert_eq!(raw(face.normal), (0.0, 0.0, 1.0));
    assert_eq!(face.distance(), Num(1.0));
    assert!(exceeded(x, y, z, &min, &max, &v3(1.0, -1.0, 0.5), Num(1e-8)).is_none());
    assert!(exceeded(x, y, z, &min, &max, &v3(1.0 + 1e-9, 0.0, 0.0), Num(1e-8)).is_none());
    assert!(exceeded(x, y, z, &min, &max, &v3(1.0 + 1e-7, 0.0, 0.0), Num(1e-8)).is_some());
}

#[test]
fn bound_defaults_are_unbounded() {
    let bound = Bound::<N>::default();
    assert_eq!(bound.hysteresis, Num(f64::EPSILON.sqrt()));
    assert_eq!(raw(bound.min_target), (f64::MIN, f64::MIN, f64::MIN));
    assert_eq!(raw(bound.max_up), (f64::MAX, f64::MAX, f64::MAX));
    assert_eq!(bound.min_distance, Num(0.0));
    assert_eq!(bound.max_distance, Num(f64::MAX));
    let mut frame = home();
    frame.slide(&v3(1e30, -1e30, 1e30));
    assert!(bound.target(&frame).is_none());
    assert!(bound.eye(&frame).is_none());
    assert!(bound.up(&frame).is_none());
}

#[test]
fn bound_eye_asks_distance_first() {
    let mut bound = Bound::<N>::default();
    bound.min_distance = Num(6.0);
    bound.max_eye = v3(-1.0, -1.0, -1.0);
    let frame = home();
    let plane = bound.eye(&frame).unwrap();
    assert!(near(plane.normal, frame.roll_axis()));
    assert_eq!(plane.distance(), Num(6.0));
    bound.min_distance = Num(0.0);
    bound.max_distance = Num(4.0);
    assert_eq!(bound.eye(&frame).unwrap().distance(), Num(4.0));
    bound.max_distance = Num(10.0);
    let plane = bound.eye(&frame).unwrap();
    assert_eq!(raw(plane.normal), (1.0, 0.0, 0.0));
    assert_eq!(plane.distance(), Num(-1.0));
}

#[test]
fn bound_transform_moves_box() {
    let mut bound = cube();
    bound.transform = Iso3 { rot: N::rot_identity(), vec: v3(10.0, 0.0, 0.0) };
    let mut frame = home();
    assert!(bound.target(&frame).is_some());
    frame.slide(&v3(10.5, 0.0, 0.0));
    assert!(bound.target(&frame).is_none());
}

#[test]
fn first_person_handler() {
    let mut first = First::<N>::default();
    assert!(!first.enabled());
    assert!(first.compute(&v2(10.0, 20.0), &v2(800.0, 600.0)).is_none());
    first.capture(v3(0.0, 1.0, 0.0));
    assert!(first.enabled());
    let (pitch, yaw, axis) = first.compute(&v2(100.0, 200.0), &v2(800.0, 600.0)).unwrap();
    assert_eq!(pitch, Num(0.5));
    assert_eq!(yaw, Num(0.25));
    assert_eq!(raw(axis), (0.0, 1.0, 0.0));
    first.discard();
    assert!(!first.enabled());
}

#[test]
fn slide_handler() {
    let mut slide = Slide::<N>::default();
    assert!(slide.compute(v2(10.0, 20.0)).is_none());
    let vec = slide.compute(v2(13.0, 16.0)).unwrap();
    assert_eq!((vec.x, vec.y), (Num(-3.0), Num(4.0)));
    slide.discard();
    assert!(slide.compute(v2(1.0, 1.0)).is_none());
}

#[test]
fn scale_handler() {
    let mut scale = Scale::<N>::default();
    assert_eq!(scale.denominator(), Num(120.0));
    assert_eq!(scale.compute(Num(120.0)), Num(0.0));
    assert_eq!(scale.compute(Num(-60.0)), Num(1.5));
    scale.set_denominator(Num(10.0));
    assert_eq!(scale.denominator(), Num(10.0));
    assert_eq!(scale.compute(Num(5.0)), Num(0.5));
}

#[test]
fn fixed_converts_between_quantities() {
    let max = v2(800.0, 600.0);
    let quarter = std::f64::consts::FRAC_PI_4;
    match Fixed::<N>::default() {
        Fixed::Ver(fov) => assert_eq!(fov, Num(quarter)),
        other => panic!("{:?}", other),
    }
    let ver = Fixed::from(Num(quarter));
    assert!(ver.same(&Fixed::Ver(Num(quarter))));
    assert!(!ver.same(&Fixed::Hor(Num(quarter))));
    assert!(ver.to_ver(&max).same(&ver));
    let upp = (quarter / 2.0).tan() * 2.0 / 600.0;
    assert!(ver.to_upp(&max).same(&Fixed::Upp(Num(upp))));
    let hor = (800.0 / 600.0 * (quarter / 2.0).tan()).atan() * 2.0;
    assert!(ver.to_hor(&max).same(&Fixed::Hor(Num(hor))));
    assert!((ver.to_hor(&max).to_ver(&max).into_inner().0 - quarter).abs() <= TOLERANCE);
    assert!((ver.to_upp(&max).to_ver(&max).into_inner().0 - quarter).abs() <= TOLERANCE);
    assert!((ver.to_upp(&max).to_hor(&max).into_inner().0 - hor).abs() <= TOLERANCE);
    assert!((ver.to_hor(&max).to_upp(&max).into_inner().0 - upp).abs() <= TOLERANCE);
    assert_eq!(Fixed::Upp(Num(2.0)).into_inner(), Num(2.0));
    assert_eq!(Fixed::Hor(Num(3.0)).into_inner(), Num(3.0));
    let (top, unit) = ver.max_and_upp(Num(5.0), &max);
    let y = 5.0 * (quarter / 2.0).tan();
    assert_eq!(top.y, Num(y));
    assert_eq!(top.x, Num(800.0 / 600.0 * y));
    assert_eq!(unit, Num(y * 2.0 / 600.0));
    let (top, unit) = Fixed::Upp(Num(0.01)).max_and_upp(Num(5.0), &max);
    assert_eq!(unit, Num(0.01 * 5.0));
    assert_eq!(top.x, Num(800.0 / 2.0 * (0.01 * 5.0)));
    let (top, unit) = ver.to_hor(&max).max_and_upp(Num(5.0), &max);
    assert!((top.y.0 - y).abs() <= TOLERANCE);
    assert!((unit.0 - y * 2.0 / 600.0).abs() <= TOLERANCE);
}

#[test]
fn scope_modes_and_clip_planes() {
    let mut scope = Scope::<N>::default();
    assert!(!scope.scale());
    assert!(!scope.ortho());
    assert_eq!(scope.clip_planes(Num(5.0)), (Num(0.1), Num(1000.0)));
    scope.set_scale(true);
    assert!(scope.scale());
    assert_eq!(scope.clip_planes(Num(5.0)), (Num(5.0 - 0.1), Num(1005.0)));
    scope.set_clip_planes(Num(1.0), Num(10.0));
    assert_eq!(scope.clip_planes(Num(5.0)), (Num(4.0), Num(15.0)));
    scope.set_ortho(true);
    assert!(scope.ortho());
    scope.set_fov(Fixed::Upp(Num(0.5)));
    assert!(scope.fov().same(&Fixed::Upp(Num(0.5))));
    assert!(scope.same(&scope));
    assert!(!scope.same(&Scope::default()));
}

#[test]
fn scope_projection_matches_formula() {
    let max = v2(800.0, 600.0);
    let scope = Scope::<N>::default();
    let (mat, upp) = scope.projection_and_upp(Num(5.0), &max);
    let quarter = std::f64::consts::FRAC_PI_4;
    let expected = Matrix4::new_perspective(800.0 / 600.0, quarter, 0.1, 1000.0);
    assert!((min(mat) - expected).norm() <= TOLERANCE);
    assert!((upp.0 - 5.0 * (quarter / 2.0).tan() * 2.0 / 600.0).abs() <= TOLERANCE);
    let mut ortho = scope;
    ortho.set_ortho(true);
    let (mat, _) = ortho.projection_and_upp(Num(5.0), &max);
    let y = 5.0 * (quarter / 2.0).tan();
    let x = 800.0 / 600.0 * y;
    let expected = Matrix4::new_orthographic(-x, x, -y, y, 0.1, 1000.0);
    assert!((min(mat) - expected).norm() <= TOLERANCE);
}

#[test]
fn image_recomputes_on_change_only() {
    let frame = home();
    let scope = Scope::<N>::default();
    let mut image = Image::new(&frame, &scope, v2(800.0, 600.0));
    let expected = min(scope.projection_and_upp(Num(5.0), &v2(800.0, 600.0)).0)
        * iin(frame.view()).to_homogeneous();
    assert!((min(*image.transformation()) - expected).norm() <= TOLERANCE);
    let product = min(*image.transformation()) * min(*image.inverse_transformation());
    assert!((product - Matrix4::identity()).norm() <= 1e-6);
    assert!((min(*image.view()) - iin(*image.view_isometry()).to_homogeneous()).norm() <= TOLERANCE);
    assert!(image.upp().0 > 0.0);
    assert_eq!(image.compute(frame, scope), None);
    let mut moved = frame;
    moved.slide(&v3(1.0, 0.0, 0.0));
    assert_eq!(image.compute(moved, scope), Some(true));
    assert_eq!(image.compute(moved, scope), None);
    let before = min(*image.transformation());
    image.set_compute(false, false);
    assert_eq!(image.compute(frame, scope), Some(true));
    assert_eq!(min(*image.transformation()), before);
    image.set_compute(true, true);
    image.set_max(v2(800.0, 600.0));
    assert_eq!(image.compute(frame, scope), None);
    image.set_max(v2(1024.0, 768.0));
    assert_eq!((image.max().x, image.max().y), (Num(1024.0), Num(768.0)));
    assert_eq!(image.compute(frame, scope), Some(true));
    let mut flat = scope;
    flat.set_ortho(true);
    assert_eq!(image.compute(frame, flat), Some(true));
    assert_eq!(min(*image.projection()), min(flat.projection_and_upp(Num(5.0), image.max()).0));
}

#[test]
fn image_reports_singular_transformation() {
    let frame = home();
    let scope = Scope::<N>::default();
    let mut image = Image::new(&frame, &scope, v2(800.0, 600.0));
    let inverse = min(*image.inverse_transformation());
    image.proj_view_mat = N::mat_zero();
    assert!(!image.compute_inverse_transformation());
    assert_eq!(min(*image.inverse_transformation()), inverse);
    image.compute_transformation();
    assert!(image.compute_inverse_transformation());
}

#[test]
fn image_transforms_screen_positions() {
    let max = v2(800.0, 600.0);
    let clamped = Image::<N>::clamp_pos_wrt_max(&v2(-5.0, 700.0), &max);
    assert_eq!((clamped.x, clamped.y), (Num(0.0), Num(600.0)));
    let (pos, half) = Image::<N>::transform_pos_and_max_wrt_max(&v2(500.0, 100.0), &max);
    assert_eq!((pos.x, pos.y), (Num(100.0), Num(200.0)));
    assert_eq!((half.x, half.y), (Num(400.0), Num(300.0)));
    let vec = Image::<N>::transform_vec(&v2(3.0, 4.0));
    assert_eq!((vec.x, vec.y), (Num(3.0), Num(-4.0)));
    let mut image = Image::new(&home(), &Scope::<N>::default(), max);
    image.set_pos(v2(10.0, 20.0));
    assert_eq!((image.pos().x, image.pos().y), (Num(10.0), Num(20.0)));
    let inside = image.clamp_pos(&v2(900.0, 300.0));
    assert_eq!((inside.x, inside.y), (Num(800.0), Num(300.0)));
    let centered = image.transform_pos(&v2(500.0, 100.0));
    assert_eq!((centered.x, centered.y), (Num(100.0), Num(200.0)));
    let upp = image.upp().0;
    assert_eq!(raw(image.project_pos(&v2(500.0, 100.0))), (100.0 * upp, 200.0 * upp, 0.0));
    assert_eq!(raw(image.project_vec(&v2(3.0, 4.0))), (3.0 * upp, -4.0 * upp, 0.0));
}

#[test]
fn single_precision_shares_the_formulas() {
    let frame = Frame::<Num<f32>>::look_at(
        Vec3 { x: Num(0.0), y: Num(0.0), z: Num(0.0) },
        &Vec3 { x: Num(0.0), y: Num(0.0), z: Num(5.0) },
        &Vec3 { x: Num(0.0), y: Num(1.0), z: Num(0.0) },
    );
    let mut bound = Bound::<Num<f32>>::default();
    bound.max_target = Vec3 { x: Num(1.0), y: Num(1.0), z: Num(1.0) };
    let delta = Delta::Slide { vec: Vec3 { x: Num(2.0), y: Num(0.0), z: Num(0.0) } };
    let (clamped, loops) = bound.compute(&frame, &Scope::default(), &delta).unwrap();
    assert_eq!(loops, 1);
    assert_eq!(clamped.transform(&frame).target().x, Num(1.0f32));
}

#[test]
fn tap_is_recognized_without_moves() {
    let mut tap = Tap::new();
    assert_eq!(tap, Tap { fingers: None, moves: 0 });
    assert_eq!(tap.count(1, 0), Move { tapping: true, induced: true });
    assert_eq!(tap, Tap { fingers: Some(1), moves: 1 });
    assert_eq!(tap.lift(0), Some(1));
    assert_eq!(tap, Tap { fingers: None, moves: 0 });
}

#[test]
fn tap_is_cancelled_by_moves() {
    let mut tap = Tap::new();
    assert_eq!(tap.count(1, 0), Move { tapping: true, induced: true });
    assert_eq!(tap.count(1, 0), Move { tapping: false, induced: true });
    assert_eq!(tap, Tap { fingers: None, moves: usize::MAX });
    assert_eq!(tap.count(1, 0), Move { tapping: false, induced: true });
    assert_eq!(tap, Tap { fingers: None, moves: usize::MAX });
    assert_eq!(tap.lift(0), None);
    assert_eq!(tap, Tap { fingers: None, moves: 0 });
}

#[test]
fn tap_debounces_moves_per_finger() {
    let mut tap = Tap::new();
    assert_eq!(tap.count(1, 2), Move { tapping: true, induced: false });
    assert_eq!(tap.count(1, 2), Move { tapping: true, induced: true });
    assert_eq!(tap.count(1, 2), Move { tapping: true, induced: true });
    assert_eq!(tap, Tap { fingers: Some(1), moves: 3 });
    assert_eq!(tap.count(1, 2), Move { tapping: false, induced: true });
    assert_eq!(tap, Tap { fingers: None, moves: usize::MAX });
}

#[test]
fn tap_counts_most_fingers_seen() {
    let mut tap = Tap::new();
    assert_eq!(tap.count(1, 0), Move { tapping: true, induced: true });
    assert_eq!(tap.count(2, 0), Move { tapping: true, induced: true });
    assert_eq!(tap, Tap { fingers: Some(2), moves: 2 });
    assert_eq!(tap.lift(1), None);
    assert_eq!(tap, Tap { fingers: Some(2), moves: 2 });
    assert_eq!(tap.lift(0), Some(2));
    let mut tap = Tap { fingers: Some(3), moves: 1 };
    assert_eq!(tap.count(2, 0), Move { tapping: false, induced: true });
    assert_eq!(tap, Tap { fingers: Some(3), moves: 2 });
}

#[test]
fn touch_one_finger_slides_centroid() {
    let mut touch = Touch::<N>::new();
    assert_eq!(touch.fingers(), 0);
    let (num, pos, rot, rat) = touch.compute(7, v2(10.0, 20.0), 0).unwrap();
    assert_eq!((num, flat(pos), rot, rat), (1, (10.0, 20.0), Num(0.0), Num(1.0)));
    assert_eq!(touch.fingers(), 1);
    assert!(touch.has(7));
    assert!(!touch.has(8));
    assert!(touch.compute(7, v2(10.0, 20.0), 0).is_none());
    let (num, pos, _, _) = touch.compute(7, v2(12.0, 26.0), 0).unwrap();
    assert_eq!((num, flat(pos)), (1, (12.0, 26.0)));
    assert_eq!(touch.fingers(), 1);
}

#[test]
fn touch_two_fingers_roll_and_scale() {
    let mut touch = Touch::<N>::new();
    assert!(touch.compute(1, v2(0.0, 0.0), 0).is_some());
    let (num, pos, rot, rat) = touch.compute(2, v2(1.0, 0.0), 0).unwrap();
    assert_eq!((num, flat(pos), rot, rat), (2, (0.5, 0.0), Num(0.0), Num(1.0)));
    let (num, pos, rot, rat) = touch.compute(2, v2(0.0, 2.0), 0).unwrap();
    assert_eq!((num, flat(pos)), (2, (0.0, 1.0)));
    assert!((rot.0 - std::f64::consts::FRAC_PI_2).abs() <= TOLERANCE);
    assert_eq!(rat, Num(0.5));
    let (num, pos, rot, rat) = touch.compute(3, v2(3.0, 1.0), 0).unwrap();
    assert_eq!((num, flat(pos), rot, rat), (3, (1.0, 1.0), Num(0.0), Num(1.0)));
    assert_eq!(touch.fingers(), 3);
}

#[test]
fn touch_tap_is_returned_on_release() {
    let mut touch = Touch::<N>::new();
    assert!(touch.compute(1, v2(2.0, 4.0), 0).is_some());
    assert!(touch.compute(2, v2(4.0, 8.0), 0).is_some());
    assert!(touch.discard(1).unwrap().is_none());
    assert_eq!(touch.fingers(), 1);
    assert!(touch.has(2));
    assert!(!touch.has(1));
    let (fingers, pos) = touch.discard(2).unwrap().unwrap();
    assert_eq!((fingers, flat(pos)), (2, (3.0, 6.0)));
    assert_eq!(touch.fingers(), 0);
    assert_eq!(touch.discard(2).unwrap_err(), UnknownFinger { fid: 2 });
}

#[test]
fn touch_moves_cancel_tap() {
    let mut touch = Touch::<N>::new();
    assert!(touch.compute(1, v2(2.0, 4.0), 0).is_some());
    assert!(touch.compute(1, v2(3.0, 4.0), 0).is_some());
    assert!(touch.discard(1).unwrap().is_none());
    assert!(touch.compute(1, v2(2.0, 4.0), 0).is_some());
    assert_eq!(touch.discard(1).unwrap().map(|(fingers, pos)| (fingers, flat(pos))), Some((1, (2.0, 4.0))));
}

#[test]
fn touch_debounces_gestures() {
    let mut touch = Touch::<N>::new();
    assert!(touch.compute(1, v2(0.0, 0.0), 2).is_none());
    assert!(touch.compute(1, v2(1.0, 0.0), 2).is_some());
    assert!(touch.compute(1, v2(2.0, 0.0), 2).is_some());
    assert_eq!(touch.discard(1).unwrap().map(|(fingers, pos)| (fingers, flat(pos))), Some((1, (2.0, 0.0))));
    let mut touch = Touch::<N>::new();
    assert!(touch.compute(1, v2(0.0, 0.0), 1).is_some());
    assert!(touch.compute(1, v2(1.0, 0.0), 1).is_some());
    assert!(touch.compute(1, v2(2.0, 0.0), 1).is_some());
    assert!(touch.discard(1).unwrap().is_none());
}

#[test]
fn touch_unknown_finger_is_an_error() {
    let mut touch = Touch::<N>::new();
    assert_eq!(touch.discard(5).unwrap_err(), UnknownFinger { fid: 5 });
    assert!(touch.compute(1, v2(0.0, 0.0), 0).is_some());
    assert!(touch.compute(2, v2(1.0, 0.0), 0).is_some());
    assert_eq!(touch.discard(5).unwrap_err(), UnknownFinger { fid: 5 });
    assert_eq!(touch.fingers(), 2);
    assert!(touch.has(1) && touch.has(2));
    // The two-finger vector is still cached: the next move rolls and scales against it.
    let (num, pos, rot, rat) = touch.compute(2, v2(0.0, 2.0), 0).unwrap();
    assert_eq!((num, flat(pos)), (2, (0.0, 1.0)));
    assert!((rot.0 - std::f64::consts::FRAC_PI_2).abs() <= TOLERANCE);
    assert_eq!(rat, Num(0.5));
    assert!(touch.discard(1).unwrap().is_none());
    assert!(touch.discard(2).unwrap().is_none());
    assert_eq!(touch.discard(1).unwrap_err(), UnknownFinger { fid: 1 });
    assert_eq!(touch.fingers(), 0);
}

#[test]
fn touch_last_finger_takes_place_of_removed() {
    let mut touch = Touch::<N>::new();
    assert!(touch.compute(1, v2(0.0, 0.0), 0).is_some());
    assert!(touch.compute(2, v2(1.0, 0.0), 0).is_some());
    assert!(touch.compute(3, v2(0.0, 1.0), 0).is_some());
    assert!(touch.discard(1).unwrap().is_none());
    assert_eq!(touch.fingers(), 2);
    // Fingers are held in the order 3, 2 now: the ray points from finger 3 to finger 2.
    assert!(touch.compute(2, v2(2.0, 1.0), 0).is_some());
    let (num, pos, rot, rat) = touch.compute(3, v2(1.0, 1.0), 0).unwrap();
    assert_eq!((num, flat(pos)), (2, (1.5, 1.0)));
    assert_eq!(rot, Num(0.0));
    assert_eq!(rat, Num(2.0));
}

#[test]
fn touch_holds_ten_fingers() {
    let mut touch = Touch::<N>::new();
    for fid in 0..10u64 {
        let (num, _, _, _) = touch.compute(fid, v2(fid as f64, 0.0), 0).unwrap();
        assert_eq!(num as u64, fid + 1);
    }
    assert_eq!(touch.fingers(), 10);
    let (num, pos, _, _) = touch.compute(9, v2(19.0, 0.0), 0).unwrap();
    assert_eq!((num, flat(pos)), (10, (5.5, 0.0)));
    assert_eq!(touch.fingers(), 10);
    assert!(!touch.has(10));
}

#[test]
fn touch_finds_first_place() {
    assert_eq!(index_of(&vec![], 1), None);
    assert_eq!(index_of(&vec![3, 1, 2, 1], 1), Some(1));
    assert_eq!(index_of(&vec![3, 1, 2, 1], 3), Some(0));
    assert_eq!(index_of(&vec![3, 1, 2, 1], 4), None);
}

#[test]
fn frames_and_planes_compare_within_tolerance() {
    let frame = home();
    let mut other = frame;
    other.slide(&v3(1e-12, 0.0, 0.0));
    assert!(!frame.same(&other));
    assert!(frame.abs_diff_eq(&other, Num(1e-9)));
    assert!(!frame.abs_diff_eq(&other, Num(1e-15)));
    assert!(frame.relative_eq(&other, Num(1e-9), N::default_max_relative()));
    assert!(!frame.relative_eq(&other, Num(1e-15), N::default_max_relative()));
    assert!(frame.ulps_eq(&other, Num(1e-9), N::default_max_ulps()));
    assert!(!frame.ulps_eq(&other, Num(1e-15), N::default_max_ulps()));
    let mut far = frame;
    far.set_distance(Num(5.0 + 1e-15));
    assert!(frame.relative_eq(&far, Num(0.0), Num(1e-12)));
    assert!(frame.ulps_eq(&far, Num(0.0), 4));
    assert!(!frame.ulps_eq(&far, Num(0.0), 0));
    let plane = Plane::<N>::new(v3(0.0, 1.0, 0.0), Num(5.0));
    let close = Plane::<N>::new(v3(0.0, 1.0, 0.0), Num(5.0 + 1e-15));
    assert!(plane.relative_eq(&close, Num(0.0), Num(1e-12)));
    assert!(!plane.relative_eq(&close, Num(0.0), Num(0.0)));
    assert!(plane.ulps_eq(&close, Num(0.0), 4));
    assert!(!plane.ulps_eq(&Plane::new(v3(0.0, 1.0, 0.0), Num(6.0)), Num(0.0), 4));
    assert_eq!(N::default_epsilon(), Num(f64::EPSILON));
}

#[test]
fn components_cast_between_precisions() {
    let single = Frame::<Num<f32>> {
        pos: Vec3 { x: Num(1.5), y: Num(-2.0), z: Num(0.25) },
        rot: Quat { i: Num(0.0), j: Num(0.5), k: Num(0.0), w: Num(0.75) },
        zat: Num(5.0),
    };
    let double: Frame<N> = single.cast();
    assert_eq!(raw(double.pos), (1.5, -2.0, 0.25));
    assert_eq!((double.rot.j, double.rot.w, double.zat), (Num(0.5), Num(0.75), Num(5.0)));
    let third = Num(1.0f32 / 3.0);
    let delta: Delta<N> = (Delta::Scale { rat: third, pos: single.pos }).cast();
    match delta {
        Delta::Scale { rat, pos } => {
            assert_eq!(rat, Num((1.0f32 / 3.0) as f64));
            assert_eq!(raw(pos), (1.5, -2.0, 0.25));
        }
        other => panic!("{:?}", other),
    }
    let slide: Delta<N> = (Delta::Slide { vec: single.pos }).cast();
    assert_eq!(slide.kind(), Kind::Slide);
    let plane: Plane<N> = (Plane { normal: single.pos, bias: third }).cast();
    assert_eq!(plane.bias, Num((1.0f32 / 3.0) as f64));
    let fixed: Fixed<N> = Fixed::Upp(third).cast();
    assert!(fixed.same(&Fixed::Upp(Num((1.0f32 / 3.0) as f64))));
    let mut scope = Scope::<Num<f32>>::default();
    scope.set_ortho(true);
    let scope: Scope<N> = scope.cast();
    assert!(scope.ortho());
    assert_eq!(scope.znear, Num(0.1f32 as f64));
    let mut orbit = Orbit::<Num<f32>>::default();
    assert!(orbit.cast::<N>().vec.is_none());
    let max = Vec2 { x: Num(800.0f32), y: Num(600.0f32) };
    assert!(orbit.compute(&Vec2 { x: Num(500.0), y: Num(300.0) }, &max).is_none());
    assert_eq!(orbit.cast::<N>().vec.unwrap().len, Num(100.0));
    let mut slide = Slide::<Num<f32>>::default();
    assert!(slide.compute(Vec2 { x: Num(1.0), y: Num(2.0) }).is_none());
    assert_eq!(flat(slide.cast::<N>().pos.unwrap()), (1.0, 2.0));
    assert_eq!(Scale::<Num<f32>>::default().cast::<N>().denominator(), Num(120.0));
}

#[test]
fn image_and_touch_cast_between_precisions() {
    let frame = Frame::<Num<f32>>::look_at(
        Vec3 { x: Num(0.0), y: Num(0.0), z: Num(0.0) },
        &Vec3 { x: Num(0.0), y: Num(0.0), z: Num(5.0) },
        &Vec3 { x: Num(0.0), y: Num(1.0), z: Num(0.0) },
    );
    let scope = Scope::<Num<f32>>::default();
    let single = Image::new(&frame, &scope, Vec2 { x: Num(800.0), y: Num(600.0) });
    let double: Image<N> = single.cast();
    assert_eq!(flat(*double.max()), (800.0, 600.0));
    assert_eq!(double.upp(), Num(single.upp().0 as f64));
    for col in 0..4 {
        for row in 0..4 {
            let entry = single.transformation().cols[col][row].0 as f64;
            assert_eq!(double.transformation().cols[col][row], Num(entry));
            let entry = single.inverse_transformation().cols[col][row].0 as f64;
            assert_eq!(double.inverse_transformation().cols[col][row], Num(entry));
        }
    }
    assert_eq!(raw(double.view_isometry().vec), (0.0, 0.0, 5.0));
    let mut touch = Touch::<Num<f32>>::new();
    let one = Vec2 { x: Num(2.0f32), y: Num(4.0f32) };
    let two = Vec2 { x: Num(4.0f32), y: Num(8.0f32) };
    assert!(touch.compute(1, one, 0).is_some());
    assert!(touch.compute(2, two, 0).is_some());
    let mut touch: Touch<N> = touch.cast();
    assert_eq!(touch.fingers(), 2);
    assert!(touch.has(1) && touch.has(2));
    let (num, pos, rot, rat) = touch.compute(2, v2(2.0, 6.0), 0).unwrap();
    assert_eq!((num, flat(pos)), (2, (2.0, 5.0)));
    assert!((rot.0 - (std::f64::consts::FRAC_PI_2 - 2f64.atan())).abs() <= 1e-6);
    assert!((rat.0 - 20f64.sqrt() / 2.0).abs() <= 1e-6);
    assert!(touch.discard(1).unwrap().is_none());
    assert!(touch.discard(2).unwrap().is_none());
}
