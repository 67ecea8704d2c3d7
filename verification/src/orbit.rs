//! Orbit induced by displacement on screen.
use vstd::prelude::*;
use crate::field::{cast_vec3, is_cast, is_cast_vec3, Cast, Quat, Scalar, Vec2, Vec3};
use crate::frame::{is_z_axis, z_axis};
use crate::image::Image;
use crate::op;

verus! {

/// Position on the trackball's screen disk as unit ray from its center and length along it.
#[derive(Clone, Copy, Debug)]
pub struct Ray<N> {
    /// Unit direction from the center, the positive z-axis for the center itself.
    pub dir: Vec3<N>,
    /// Distance from the center.
    pub len: N,
}

/// Orthonormal frame at the image of a start position under the exponential map.
#[derive(Clone, Copy, Debug)]
pub struct Tangent<N> {
    /// Exponential map of start position.
    pub exp: Vec3<N>,
    /// Tangent ray of geodesic at exponential map.
    pub tan: Vec3<N>,
    /// Cross product of z-axis and start position.
    pub zxp: Vec3<N>,
}

/// Orbit induced by displacement on screen.
///
/// The handler is idle while nothing is cached and tracking while the previous position is.
/// Both its methods must be invoked on matching events: [`Self::compute()`] on each
/// cursor/finger position, [`Self::discard()`] on button/finger release.
#[derive(Clone, Copy, Debug)]
pub struct Orbit<N> {
    /// Caches normalization of previous cursor/finger position.
    pub vec: Option<Ray<N>>,
}

impl<N: Scalar> Default for Orbit<N> {
    fn default() -> (orbit: Self)
        ensures
            orbit.vec is None,
    {
        Orbit { vec: None }
    }
}

impl<N: Scalar> Orbit<N> {
    /// `ray` is the normalization of `(pos.x, pos.y, 0)` with its length, or the positive
    /// z-axis with zero length if that vector cannot be normalized.
    pub open spec fn is_locate(pos: Vec2<N>, ray: Ray<N>) -> bool {
        exists|zero: N, found: Option<(Vec3<N>, N)>|
            op::zero(zero) && op::try_normalize(Vec3 { x: pos.x, y: pos.y, z: zero }, zero, found)
                && match found {
                Some((dir, len)) => ray == (Ray { dir, len }),
                None => is_z_axis(ray.dir) && ray.len == zero,
            }
    }

    /// `at` is the frame at the exponential map of the start position `old` on a trackball of
    /// the given radius: with sine and cosine of the latitude `old.len / radius * π/2`, the
    /// image is `(sin * x, sin * y, cos)`, the tangent `(cos * x, cos * y, -sin)`, and the
    /// third axis `(-y, x, 0)`.
    pub open spec fn is_tangent(old: Ray<N>, radius: N, at: Tangent<N>) -> bool {
        exists|part: N, quarter: N, theta: N, sin: N, cos: N|
            op::over(old.len, radius, part) && op::frac_pi_2(quarter) && op::times(
                part,
                quarter,
                theta,
            ) && op::sin_cos(theta, (sin, cos)) && op::times(sin, old.dir.x, at.exp.x) && op::times(
                sin,
                old.dir.y,
                at.exp.y,
            ) && at.exp.z == cos && op::times(cos, old.dir.x, at.tan.x) && op::times(
                cos,
                old.dir.y,
                at.tan.y,
            ) && op::negate(sin, at.tan.z) && op::negate(old.dir.y, at.zxp.x) && at.zxp.y
                == old.dir.x && op::zero(at.zxp.z)
    }

    /// `axis` is the cross product of the transported displacement with the exponential map:
    /// the displacement `ray` is taken to the frame `[z, start, zxp]` by the transposed matrix
    /// and from there to the frame `[exp, tan, zxp]`.
    pub open spec fn is_transport(start: Vec3<N>, at: Tangent<N>, ray: Vec3<N>, axis: Vec3<N>) -> bool {
        exists|pza: Vec3<N>, arg: Vec3<N>, img: Vec3<N>|
            is_z_axis(pza) && op::cols_tr_mul(pza, start, at.zxp, ray, arg) && op::cols_mul(
                at.exp,
                at.tan,
                at.zxp,
                arg,
                img,
            ) && op::cross(img, at.exp, axis)
    }

    /// `vec` is the displacement `new.dir * new.len - old.dir * old.len`.
    pub open spec fn is_displacement(old: Ray<N>, new: Ray<N>, vec: Vec3<N>) -> bool {
        exists|to: Vec3<N>, from: Vec3<N>|
            op::vec_scale(new.dir, new.len, to) && op::vec_scale(old.dir, old.len, from)
                && op::vec_sub(to, from, vec)
    }

    /// `rot` is the rotation around the normalized transported displacement by the length of
    /// the displacement over the radius, or nothing where the displacement or its transport
    /// cannot be normalized.
    pub open spec fn is_induce(old: Ray<N>, new: Ray<N>, max: Vec2<N>, rot: Option<Quat<N>>) -> bool {
        exists|vec: Vec3<N>, zero: N, moved: Option<(Vec3<N>, N)>|
            Self::is_displacement(old, new, vec) && op::zero(zero) && op::try_normalize(
                vec,
                zero,
                moved,
            ) && match moved {
                Some((ray, len)) => Self::is_rotation(old, ray, len, max, zero, rot),
                None => rot is None,
            }
    }

    /// `rot` is the rotation that the displacement of direction `ray` and length `len` from
    /// the start position `old` induces.
    pub open spec fn is_rotation(
        old: Ray<N>,
        ray: Vec3<N>,
        len: N,
        max: Vec2<N>,
        zero: N,
        rot: Option<Quat<N>>,
    ) -> bool {
        exists|radius: N, at: Tangent<N>, vec: Vec3<N>, found: Option<(Vec3<N>, N)>|
            op::max(max.x, max.y, radius) && Self::is_tangent(old, radius, at)
                && Self::is_transport(old.dir, at, ray, vec) && op::try_normalize(vec, zero, found)
                && match found {
                Some((axis, _)) => exists|angle: N, turn: Quat<N>|
                    op::over(len, radius, angle) && op::rot_from_axis_angle(axis, angle, turn)
                        && rot == Some(turn),
                None => rot is None,
            }
    }

    /// `after` caches the located position, and `rot` is nothing for an idle handler and the
    /// rotation induced from the cached to the located position for a tracking one.
    pub open spec fn is_compute(
        self,
        pos: Vec2<N>,
        max: Vec2<N>,
        after: Self,
        rot: Option<Quat<N>>,
    ) -> bool {
        exists|inside: Vec2<N>, centered: Vec2<N>, center: Vec2<N>, new: Ray<N>|
            Image::<N>::is_clamp_pos_wrt_max(pos, max, inside)
                && Image::<N>::is_transform_pos_and_max_wrt_max(inside, max, centered, center)
                && Self::is_locate(centered, new) && after.vec == Some(new) && match self.vec {
                Some(old) => Self::is_induce(old, new, center, rot),
                None => rot is None,
            }
    }

    /// Computes rotation between previous and current cursor/finger position.
    ///
    /// Normalization of previous position is cached and has to be discarded on button/finger
    /// release via [`Self::discard()`]. Current position `pos` is clamped between origin and
    /// maximum position `max` as screen's width and height.
    ///
    /// Screen space with origin in top left corner:
    ///
    ///   * x-axis from left to right,
    ///   * y-axis from top to bottom.
    ///
    /// Camera space with origin at its target, the trackball's center:
    ///
    ///   * x-axis from left to right,
    ///   * y-axis from bottom to top,
    ///   * z-axis from far to near.
    ///
    /// Returns `None`:
    ///
    ///   * on first invocation and after [`Self::discard()`] as there is no previous position yet,
    ///   * in the unlikely case that a position event fires twice resulting in zero displacements.
    ///
    /// The handler is tracking afterwards.
    pub fn compute(&mut self, pos: &Vec2<N>, max: &Vec2<N>) -> (rot: Option<Quat<N>>)
        ensures
            old(self).is_compute(*pos, *max, *final(self), rot),
            old(self).vec is None ==> rot is None,
            final(self).vec is Some,
    {
        // Clamped cursor/finger position from left to right and top to bottom.
        let inside = Image::clamp_pos_wrt_max(pos, max);
        // Centered cursor/finger position and its maximum from left to right and bottom to top.
        let (centered, center) = Image::transform_pos_and_max_wrt_max(&inside, max);
        let new = Self::locate(&centered);
        // Get old ray and length as start position and offset and replace with new ray and length.
        let old = self.vec;
        self.vec = Some(new);
        match old {
            Some(old) => Self::induce(&old, &new, &center),
            None => None,
        }
    }

    /// Centered position as ray and length on xy-plane or z-axis of zero length for origin
    /// position.
    pub fn locate(pos: &Vec2<N>) -> (ray: Ray<N>)
        ensures
            Self::is_locate(*pos, ray),
    {
        let zero = N::zero();
        let found = N::try_normalize(Vec3 { x: pos.x, y: pos.y, z: zero }, zero);
        match found {
            Some((dir, len)) => Ray { dir, len },
            None => Ray { dir: z_axis(), len: zero },
        }
    }

    /// Frame at the exponential map of a start position on a trackball of the given radius.
    ///
    /// Maps trackball's diameter onto half its circumference for start positions so that only
    /// screen corners are mapped to lower hemisphere which induces less intuitive rotations.
    pub fn tangent(old: &Ray<N>, radius: N) -> (at: Tangent<N>)
        ensures
            Self::is_tangent(*old, radius, at),
    {
        let pos = old.dir;
        let part = old.len.over(radius);
        let quarter = N::frac_pi_2();
        let theta = part.times(quarter);
        let (sin, cos) = theta.sin_cos();
        // Exponential map of start position.
        let exp = Vec3 { x: sin.times(pos.x), y: sin.times(pos.y), z: cos };
        // Tangent ray of geodesic at exponential map.
        let tan = Vec3 { x: cos.times(pos.x), y: cos.times(pos.y), z: sin.negate() };
        // Cross product of z-axis and start position to construct orthonormal frames.
        let zxp = Vec3 { x: pos.y.negate(), y: pos.x, z: N::zero() };
        assert(op::over(old.len, radius, part) && op::frac_pi_2(quarter) && op::times(
            part,
            quarter,
            theta,
        ) && op::sin_cos(theta, (sin, cos)));
        Tangent { exp, tan, zxp }
    }

    /// Rotation induced by the displacement from `old` to `new` on a trackball whose radius is
    /// the larger component of the centered maximum position `max`.
    ///
    /// Returns `None` if the displacement vanishes or is parallel to the image of the start
    /// position under the exponential map.
    pub fn induce(old: &Ray<N>, new: &Ray<N>, max: &Vec2<N>) -> (rot: Option<Quat<N>>)
        ensures
            Self::is_induce(*old, *new, *max, rot),
    {
        // Displacement vector from old to new ray and length.
        let to = N::vec_scale(new.dir, new.len);
        let from = N::vec_scale(old.dir, old.len);
        let vec = N::vec_sub(to, from);
        assert(Self::is_displacement(*old, *new, vec)) by {
            assert(op::vec_scale(new.dir, new.len, to) && op::vec_scale(old.dir, old.len, from)
                && op::vec_sub(to, from, vec));
        }
        let zero = N::zero();
        // Shadow new ray and length as normalized displacement vector.
        let moved = N::try_normalize(vec, zero);
        assert(op::zero(zero) && op::try_normalize(vec, zero, moved));
        match moved {
            Some((ray, len)) => {
                // Treat maximum of half the screen's width or height as trackball's radius.
                let radius = max.x.max(max.y);
                let at = Self::tangent(old, radius);
                // Compute differential of exponential map by its argument and image and apply
                // it to displacement vector which in turn spans rotation plane together with
                // exponential map.
                let pza = z_axis();
                let arg = N::cols_tr_mul(pza, old.dir, at.zxp, ray);
                let img = N::cols_mul(at.exp, at.tan, at.zxp, arg);
                let axis = N::cross(img, at.exp);
                assert(Self::is_transport(old.dir, at, ray, axis)) by {
                    assert(is_z_axis(pza) && op::cols_tr_mul(pza, old.dir, at.zxp, ray, arg)
                        && op::cols_mul(at.exp, at.tan, at.zxp, arg, img) && op::cross(
                        img,
                        at.exp,
                        axis,
                    ));
                }
                let found = N::try_normalize(axis, zero);
                assert(op::max(max.x, max.y, radius) && op::try_normalize(axis, zero, found));
                // Angle of rotation is displacement length divided by radius.
                let rot = match found {
                    Some((axis, _)) => {
                        let angle = len.over(radius);
                        let turn = N::rot_from_axis_angle(axis, angle);
                        assert(op::over(len, radius, angle) && op::rot_from_axis_angle(
                            axis,
                            angle,
                            turn,
                        ));
                        Some(turn)
                    },
                    None => None,
                };
                assert(Self::is_rotation(*old, ray, len, *max, zero, rot));
                rot
            },
            None => None,
        }
    }

    /// Discards cached normalization of previous cursor/finger position on button/finger release.
    pub fn discard(&mut self)
        ensures
            final(self).vec is None,
    {
        self.vec = None;
    }
}

/// The difference of a scaled vector with itself cannot be normalized, as zero cannot over
/// the reals, and scaling a vector is a function of vector and factor.
pub open spec fn is_nil_displacement<N: Scalar>() -> bool {
    &&& forall|v: Vec3<N>, s: N, a: Vec3<N>, b: Vec3<N>| #![trigger op::vec_scale(v, s, a), op::vec_scale(v, s, b)]
        op::vec_scale(v, s, a) && op::vec_scale(v, s, b) ==> a == b
    &&& forall|v: Vec3<N>, d: Vec3<N>, least: N, found: Option<(Vec3<N>, N)>| #![trigger op::vec_sub(v, v, d), op::try_normalize(d, least, found)]
        op::vec_sub(v, v, d) && op::try_normalize(d, least, found) ==> found is None
}

/// Equal arcs: an induced rotation turns by the length of the displacement over the radius
/// of the trackball, whatever the start position is and wherever the displacement points.
pub proof fn lemma_equal_arcs<N: Scalar>(old: Ray<N>, new: Ray<N>, max: Vec2<N>, rot: Quat<N>)
    requires
        Orbit::is_induce(old, new, max, Some(rot)),
    ensures
        exists|vec: Vec3<N>, least: N, ray: Vec3<N>, len: N, radius: N, axis: Vec3<N>, angle: N|
            Orbit::is_displacement(old, new, vec) && op::try_normalize(
                vec,
                least,
                Some((ray, len)),
            ) && op::max(max.x, max.y, radius) && op::over(len, radius, angle)
                && op::rot_from_axis_angle(axis, angle, rot),
{
    let (vec, zero, moved) = choose|vec: Vec3<N>, zero: N, moved: Option<(Vec3<N>, N)>|
        Orbit::is_displacement(old, new, vec) && op::zero(zero) && op::try_normalize(
            vec,
            zero,
            moved,
        ) && match moved {
            Some((ray, len)) => Orbit::is_rotation(old, ray, len, max, zero, Some(rot)),
            None => false,
        };
    let (ray, len) = moved->0;
    let (radius, at, axis, found) = choose|
        radius: N,
        at: Tangent<N>,
        axis: Vec3<N>,
        found: Option<(Vec3<N>, N)>,
    |
        op::max(max.x, max.y, radius) && Orbit::is_tangent(old, radius, at)
            && Orbit::is_transport(old.dir, at, ray, axis) && op::try_normalize(axis, zero, found)
            && match found {
            Some((unit, _)) => exists|angle: N, turn: Quat<N>|
                op::over(len, radius, angle) && op::rot_from_axis_angle(unit, angle, turn)
                    && Some(rot) == Some(turn),
            None => false,
        };
    let (unit, _) = found->0;
    let angle = choose|angle: N|
        op::over(len, radius, angle) && op::rot_from_axis_angle(unit, angle, rot);
    assert(Orbit::is_displacement(old, new, vec) && op::try_normalize(vec, zero, Some((ray, len)))
        && op::max(max.x, max.y, radius) && op::over(len, radius, angle)
        && op::rot_from_axis_angle(unit, angle, rot));
}

/// Equal inputs give equal results: over a field whose operations are functions, a
/// handler makes one thing of a position.
pub proof fn lemma_compute_is_function<N: Scalar>(
    before: Orbit<N>,
    pos: Vec2<N>,
    max: Vec2<N>,
    one: Orbit<N>,
    rot: Option<Quat<N>>,
    other: Orbit<N>,
    turn: Option<Quat<N>>,
)
    requires
        op::is_function::<N>(),
        before.is_compute(pos, max, one, rot),
        before.is_compute(pos, max, other, turn),
    ensures
        one == other,
        rot == turn,
{
}

/// Duplicate suppression: over a field whose operations are functions and in which the
/// difference of a scaled vector with itself cannot be normalized, a position that is
/// given twice in a row induces no rotation the second time.
pub proof fn lemma_duplicate_yields_nothing<N: Scalar>(
    before: Orbit<N>,
    pos: Vec2<N>,
    max: Vec2<N>,
    first: Orbit<N>,
    rot: Option<Quat<N>>,
    second: Orbit<N>,
    turn: Option<Quat<N>>,
)
    requires
        op::is_function::<N>(),
        is_nil_displacement::<N>(),
        before.is_compute(pos, max, first, rot),
        first.is_compute(pos, max, second, turn),
    ensures
        turn is None,
        second == first,
{
}

impl<N: Copy> Orbit<N> {
    /// Casts components to another type, e.g., between single and double precision.
    pub fn cast<M>(self) -> (orbit: Orbit<M>) where N: Cast<M>
        ensures
            match self.vec {
                Some(ray) => orbit.vec matches Some(cast) && is_cast_vec3(ray.dir, cast.dir)
                    && is_cast(ray.len, cast.len),
                None => orbit.vec is None,
            },
    {
        Orbit {
            vec: match self.vec {
                Some(ray) => Some(Ray { dir: cast_vec3(ray.dir), len: ray.len.cast() }),
                None => None,
            },
        }
    }
}

} // verus!
