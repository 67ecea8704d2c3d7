//! Clamp wrt abstract boundary conditions of frame and scope.
use vstd::prelude::*;
use crate::delta::Delta;
use crate::field::{Quat, Scalar, Vec3};
use crate::frame::{is_origin, is_same_vec, origin, same_vec, Frame};
use crate::op;
use crate::plane::Plane;
use crate::scope::Scope;

verus! {

/// Number of the next validation pass, or `None` if validation ends.
///
/// Another pass is due if and only if the last pass met an exceeded boundary and fewer than
/// `limit` passes have been repeated.
pub fn advance(bound: bool, loops: usize, limit: usize) -> (next: Option<usize>)
    ensures
        next == if bound && loops < limit {
            Some((loops + 1) as usize)
        } else {
            None::<usize>
        },
{
    if bound && loops < limit {
        Some(loops + 1)
    } else {
        None
    }
}

/// `clamped` is nothing if the least delta compares equal to the requested one, else the
/// least delta with the number of repeated validation passes.
pub open spec fn is_settle<N: Scalar>(
    delta: Delta<N>,
    least: Delta<N>,
    loops: usize,
    clamped: Option<(Delta<N>, usize)>,
) -> bool {
    exists|equal: bool|
        least.is_same(delta, equal) && clamped == if equal {
            None
        } else {
            Some((least, loops))
        }
}

/// What clamping reports of the least delta found: nothing if it still compares equal to the
/// requested one, else the delta with the number of repeated validation passes.
pub fn settle<N: Scalar>(delta: &Delta<N>, least: Delta<N>, loops: usize) -> (clamped: Option<
    (Delta<N>, usize),
>)
    ensures
        is_settle(*delta, least, loops, clamped),
        clamped is Some ==> clamped == Some((least, loops)),
        least.kind() != delta.kind() ==> clamped is Some,
{
    if least.same(delta) {
        None
    } else {
        Some((least, loops))
    }
}

/// `radius` is the root of `height * (distance * (1 + 1) - height)` with the height
/// `distance - depth`.
pub open spec fn is_cap_radius<N: Scalar>(distance: N, depth: N, radius: N) -> bool {
    exists|height: N, one: N, two: N, across: N, rest: N, area: N|
        op::minus(distance, depth, height) && op::one(one) && op::plus(one, one, two) && op::times(
            distance,
            two,
            across,
        ) && op::minus(across, height, rest) && op::times(height, rest, area) && op::sqrt(
            area,
            radius,
        )
}

/// Radius of the spherical cap that a plane at `depth` from a sphere's center cuts off the
/// sphere of radius `distance`: the root of `height * (2 * distance - height)` with the cap's
/// height `distance - depth`.
pub fn cap_radius<N: Scalar>(distance: N, depth: N) -> (radius: N)
    ensures
        is_cap_radius(distance, depth, radius),
{
    let height = distance.minus(depth);
    let one = N::one();
    let two = one.plus(one);
    let across = distance.times(two);
    let rest = across.minus(height);
    let area = height.times(rest);
    let radius = area.sqrt();
    assert(op::minus(distance, depth, height) && op::one(one) && op::plus(one, one, two)
        && op::times(distance, two, across) && op::minus(across, height, rest) && op::times(
        height,
        rest,
        area,
    ) && op::sqrt(area, radius));
    radius
}

/// What clamping holds on to of the initial frame.
#[derive(Clone, Copy, Debug)]
pub struct Anchor<N> {
    /// Target position in world space.
    pub target: Vec3<N>,
    /// Eye position in world space.
    pub eye: Vec3<N>,
    /// Rotation from world to camera space.
    pub back: Quat<N>,
    /// Eye position in camera space with the target as origin.
    pub seen: Vec3<N>,
    /// Distance between eye and target.
    pub zat: N,
}

/// Least delta found so far with the scale ratio that was tried last.
#[derive(Clone, Copy, Debug)]
pub struct Trial<N> {
    /// Least delta found so far.
    pub least: Delta<N>,
    /// Scale ratio, for a scale only.
    pub rat: Option<N>,
    /// Whether the last validation pass met an exceeded boundary.
    pub bound: bool,
}

/// `at` holds target, eye and distance of the frame, its inverse rotation, and the eye seen
/// from the target under that rotation.
pub open spec fn is_anchor<N: Scalar>(frame: Frame<N>, at: Anchor<N>) -> bool {
    at.target == frame.pos && at.zat == frame.zat && frame.is_eye(at.eye) && op::rot_inverse(
        frame.rot,
        at.back,
    ) && exists|arm: Vec3<N>| op::vec_sub(at.eye, frame.pos, arm) && op::rotate(at.back, arm, at.seen)
}

/// What clamping holds on to of the initial frame.
pub fn anchor<N: Scalar>(frame: &Frame<N>) -> (at: Anchor<N>)
    ensures
        is_anchor(*frame, at),
{
    let eye = frame.eye();
    let back = N::rot_inverse(frame.view().rot);
    let arm = N::vec_sub(eye, frame.pos);
    let seen = N::rotate(back, arm);
    assert(op::vec_sub(eye, frame.pos, arm) && op::rotate(back, arm, seen));
    Anchor { target: frame.pos, eye, back, seen, zat: frame.zat }
}

/// `vec` is the vector in camera space from `from` to the projection of `point` onto the
/// plane.
pub open spec fn is_slid<N: Scalar>(
    from: Vec3<N>,
    back: Quat<N>,
    plane: Plane<N>,
    point: Vec3<N>,
    vec: Vec3<N>,
) -> bool {
    exists|on: Vec3<N>, by: Vec3<N>|
        plane.is_project_vector(point, on) && op::vec_sub(on, from, by) && op::rotate(back, by, vec)
}

/// Vector in camera space that glides from `from` to the projection of the exceeding
/// `point` onto the exceeded plane.
pub fn slid<N: Scalar>(from: &Vec3<N>, back: &Quat<N>, plane: &Plane<N>, point: &Vec3<N>) -> (vec:
    Vec3<N>)
    ensures
        is_slid(*from, *back, *plane, *point, vec),
{
    let on = plane.project_point(point);
    let by = N::vec_sub(on, *from);
    let vec = N::rotate(*back, by);
    assert(plane.is_project_vector(*point, on) && op::vec_sub(on, *from, by) && op::rotate(
        *back,
        by,
        vec,
    ));
    vec
}

/// `rim` is the point on the rim of the spherical cap that the plane cuts off the sphere of
/// the given center and radius `zat`, in the direction of the projection of `point` onto the
/// plane as seen from the center of the cap.
///
/// The center of the cap is the projection of the center of the sphere onto the plane, its
/// height is what the radius of the sphere exceeds the distance between both centers by,
/// and its radius follows from that height.
pub open spec fn is_rim<N: Scalar>(
    center: Vec3<N>,
    zat: N,
    plane: Plane<N>,
    point: Vec3<N>,
    rim: Vec3<N>,
) -> bool {
    exists|base: Vec3<N>, off: Vec3<N>, depth: N, radius: N|
        plane.is_project_vector(center, base) && op::vec_sub(base, center, off) && op::norm(
            off,
            depth,
        ) && is_cap_radius(zat, depth, radius) && is_rimmed(plane, point, base, radius, rim)
}

/// `rim` is `base` plus the normalized vector from `base` to the projection of `point`
/// onto the plane, scaled by `radius`.
pub open spec fn is_rimmed<N: Scalar>(
    plane: Plane<N>,
    point: Vec3<N>,
    base: Vec3<N>,
    radius: N,
    rim: Vec3<N>,
) -> bool {
    exists|on: Vec3<N>, out: Vec3<N>, dir: Vec3<N>, arm: Vec3<N>|
        plane.is_project_vector(point, on) && op::vec_sub(on, base, out) && op::normalize(out, dir)
            && op::vec_scale(dir, radius, arm) && op::vec_add(base, arm, rim)
}

/// Point on the rim of the spherical cap that the exceeded plane cuts off the sphere of the
/// given center and radius, next to the exceeding point.
pub fn rim<N: Scalar>(center: &Vec3<N>, zat: N, plane: &Plane<N>, point: &Vec3<N>) -> (rim: Vec3<N>)
    ensures
        is_rim(*center, zat, *plane, *point, rim),
{
    // Center of spherical cap in world space.
    let base = plane.project_point(center);
    // Radius of spherical cap from its height.
    let off = N::vec_sub(base, *center);
    let depth = N::norm(off);
    let radius = cap_radius(zat, depth);
    // New clamped position in spherical cap space.
    let on = plane.project_point(point);
    let out = N::vec_sub(on, base);
    let dir = N::normalize(out);
    let arm = N::vec_scale(dir, radius);
    // New clamped position in world space.
    let rim = N::vec_add(base, arm);
    assert(is_rimmed(*plane, *point, base, radius, rim)) by {
        assert(plane.is_project_vector(*point, on) && op::vec_sub(on, base, out) && op::normalize(
            out,
            dir,
        ) && op::vec_scale(dir, radius, arm) && op::vec_add(base, arm, rim));
    }
    assert(plane.is_project_vector(*center, base) && op::vec_sub(base, *center, off) && op::norm(
        off,
        depth,
    ) && is_cap_radius(zat, depth, radius));
    rim
}

/// `rot` is the rotation in camera space from the initial eye position to the exceeding eye
/// position `point` put back onto the rim of the spherical cap that the exceeded plane cuts
/// off the sphere around the target. It is the identity where there is no unique rotation.
pub open spec fn is_capped<N: Scalar>(
    at: Anchor<N>,
    plane: Plane<N>,
    point: Vec3<N>,
    rot: Quat<N>,
) -> bool {
    exists|world: Vec3<N>, seen: Vec3<N>, eye: Vec3<N>, found: Option<Quat<N>>|
        is_rim(at.target, at.zat, plane, point, world) && op::vec_sub(world, at.target, seen)
            && op::rotate(at.back, seen, eye) && op::rot_between(at.seen, eye, found) && match found {
            Some(between) => rot == between,
            None => op::rot_identity(rot),
        }
}

/// Rotation in camera space that glides the eye along the exceeded plane on the sphere
/// around the target.
pub fn capped<N: Scalar>(at: &Anchor<N>, plane: &Plane<N>, point: &Vec3<N>) -> (rot: Quat<N>)
    ensures
        is_capped(*at, *plane, *point, rot),
{
    // New clamped eye position in world space.
    let world = rim(&at.target, at.zat, plane, point);
    // New clamped eye position in camera space.
    let seen = N::vec_sub(world, at.target);
    let eye = N::rotate(at.back, seen);
    // New delta rotation in camera space.
    let found = N::rot_between(at.seen, eye);
    let rot = match found {
        Some(between) => between,
        None => N::rot_identity(),
    };
    assert(is_rim(at.target, at.zat, *plane, *point, world) && op::vec_sub(world, at.target, seen)
        && op::rotate(at.back, seen, eye) && op::rot_between(at.seen, eye, found));
    rot
}

/// `angle` is the signed angle around `axis` from `old` to `new`, both projected onto the
/// plane through `eye` that `axis` is normal to.
pub open spec fn is_turn<N: Scalar>(
    axis: Vec3<N>,
    eye: Vec3<N>,
    old: Vec3<N>,
    new: Vec3<N>,
    angle: N,
) -> bool {
    exists|plane: Plane<N>, from: Vec3<N>, to: Vec3<N>|
        Plane::is_with_point(axis, eye, plane) && plane.is_project_vector(old, from)
            && plane.is_project_vector(new, to) && plane.is_angle_between(from, to, angle)
}

/// Signed angle around `axis` from `old` to `new`, both projected onto the plane through
/// `eye` that `axis` is normal to.
pub fn turn<N: Scalar>(axis: Vec3<N>, eye: &Vec3<N>, old: &Vec3<N>, new: &Vec3<N>) -> (angle: N)
    ensures
        is_turn(axis, *eye, *old, *new, angle),
{
    let plane = Plane::with_point(axis, eye);
    let from = plane.project_vector(old);
    let to = plane.project_vector(new);
    let angle = plane.angle_between(&from, &to);
    assert(Plane::is_with_point(axis, *eye, plane) && plane.is_project_vector(*old, from)
        && plane.is_project_vector(*new, to) && plane.is_angle_between(from, to, angle));
    angle
}

/// `pitch` and `yaw` look from the eye at the exceeding target position `point` put back
/// onto the rim of the spherical cap that the exceeded plane cuts off the sphere around the
/// eye: `pitch` is the signed angle around the pitch axis from the initial to that target
/// direction, and `yaw` the signed angle around `yaw_axis` that is left after pitching.
pub open spec fn is_looked<N: Scalar>(
    frame: Frame<N>,
    at: Anchor<N>,
    plane: Plane<N>,
    point: Vec3<N>,
    yaw_axis: Vec3<N>,
    pitch: N,
    yaw: N,
) -> bool {
    exists|axis: Vec3<N>, old: Vec3<N>, world: Vec3<N>, new: Vec3<N>|
        frame.is_pitch_axis(axis) && op::vec_sub(frame.pos, at.eye, old) && is_rim(
            at.eye,
            at.zat,
            plane,
            point,
            world,
        ) && op::vec_sub(world, at.eye, new) && is_turn(axis, at.eye, old, new, pitch)
            && is_yawed(axis, at.eye, old, new, yaw_axis, pitch, yaw)
}

/// `yaw` is the signed angle around `yaw_axis` from `old` pitched by `pitch` around `axis`
/// to `new`.
pub open spec fn is_yawed<N: Scalar>(
    axis: Vec3<N>,
    eye: Vec3<N>,
    old: Vec3<N>,
    new: Vec3<N>,
    yaw_axis: Vec3<N>,
    pitch: N,
    yaw: N,
) -> bool {
    exists|rot: Quat<N>, pitched: Vec3<N>|
        op::rot_from_axis_angle(axis, pitch, rot) && op::rotate(rot, old, pitched) && is_turn(
            yaw_axis,
            eye,
            pitched,
            new,
            yaw,
        )
}

/// Pitch and yaw that glide the target along the exceeded plane on the sphere around the eye.
pub fn looked<N: Scalar>(
    frame: &Frame<N>,
    at: &Anchor<N>,
    plane: &Plane<N>,
    point: &Vec3<N>,
    yaw_axis: Vec3<N>,
) -> (angles: (N, N))
    ensures
        is_looked(*frame, *at, *plane, *point, yaw_axis, angles.0, angles.1),
{
    let axis = frame.pitch_axis();
    // Old target position in eye space.
    let old = N::vec_sub(frame.pos, at.eye);
    // New clamped target position in world space.
    let world = rim(&at.eye, at.zat, plane, point);
    // New clamped target position in eye space.
    let new = N::vec_sub(world, at.eye);
    // Extract new signed pitch.
    let pitch = turn(axis, &at.eye, &old, &new);
    // Apply signed pitch to old target.
    let rot = N::rot_from_axis_angle(axis, pitch);
    let pitched = N::rotate(rot, old);
    // Extract left-over signed yaw.
    let yaw = turn(yaw_axis, &at.eye, &pitched, &new);
    assert(is_yawed(axis, at.eye, old, new, yaw_axis, pitch, yaw)) by {
        assert(op::rot_from_axis_angle(axis, pitch, rot) && op::rotate(rot, old, pitched)
            && is_turn(yaw_axis, at.eye, pitched, new, yaw));
    }
    assert(frame.is_pitch_axis(axis) && op::vec_sub(frame.pos, at.eye, old) && is_rim(
        at.eye,
        at.zat,
        *plane,
        *point,
        world,
    ) && op::vec_sub(world, at.eye, new) && is_turn(axis, at.eye, old, new, pitch));
    (pitch, yaw)
}

/// `least` is the least distance of the eye from the target in object inspection mode:
/// `-near * (1 + √ε)` with the near clip plane distance for a vanishing distance and the
/// default tolerance `ε`.
pub open spec fn is_least_zat<N: Scalar>(scope: Scope<N>, least: N) -> bool {
    exists|zero: N, near: N, far: N, back: N, one: N, epsilon: N, root: N, factor: N|
        op::zero(zero) && scope.is_clip_planes(zero, near, far) && op::negate(near, back)
            && op::one(one) && op::default_epsilon(epsilon) && op::sqrt(epsilon, root) && op::plus(
            one,
            root,
            factor,
        ) && op::times(back, factor, least)
}

/// Least distance of the eye from the target in object inspection mode.
pub fn least_zat<N: Scalar>(scope: &Scope<N>) -> (least: N)
    ensures
        is_least_zat(*scope, least),
{
    let zero = N::zero();
    let (near, far) = scope.clip_planes(zero);
    let back = near.negate();
    let one = N::one();
    let epsilon = N::default_epsilon();
    let root = epsilon.sqrt();
    let factor = one.plus(root);
    let least = back.times(factor);
    assert(op::zero(zero) && scope.is_clip_planes(zero, near, far) && op::negate(near, back)
        && op::one(one) && op::default_epsilon(epsilon) && op::sqrt(epsilon, root) && op::plus(
        one,
        root,
        factor,
    ) && op::times(back, factor, least));
    least
}

/// Whether `least` can replace the requested delta: the identity unless sliding is
/// requested, or the same operation, around the same yaw axis or pivot.
pub open spec fn fits<N>(delta: Delta<N>, least: Delta<N>) -> bool {
    match delta {
        Delta::Frame => least is Frame,
        Delta::First { yaw_axis, .. } => least is Frame || (least matches Delta::First {
            yaw_axis: axis,
            ..
        } && axis == yaw_axis),
        Delta::Track { .. } => least is Frame || least is Track,
        Delta::Orbit { pos, .. } => least is Frame || (least matches Delta::Orbit {
            pos: pivot,
            ..
        } && pivot == pos),
        Delta::Slide { .. } => least is Slide,
        Delta::Scale { pos, .. } => least is Frame || (least matches Delta::Scale {
            pos: pivot,
            ..
        } && pivot == pos),
    }
}

/// What a clamped delta is whatever the boundary conditions are.
///
/// The identity is never clamped, and the clamped delta fits the requested one.
pub open spec fn clamps<N>(delta: Delta<N>, clamped: Option<(Delta<N>, usize)>) -> bool {
    match clamped {
        None => true,
        Some((least, _)) => !(delta is Frame) && fits(delta, least),
    }
}

/// One validation pass: `after` is what the pass makes of the trial `before`.
///
///   * First person view glides along the boundary that the target exceeds.
///   * Tracking glides along the boundary that the target exceeds, and is stopped if the
///     up axis exceeds a boundary then.
///   * Orbiting glides along the boundary that the eye exceeds, and is stopped if the up
///     axis exceeds a boundary then.
///   * Sliding glides along the boundary that the target exceeds and then along the one
///     that the eye exceeds.
///   * Scaling is stopped if the eye exceeds a boundary, and in object inspection mode lands
///     on the least distance if the distance scaled by the ratio tried last is less.
pub open spec fn is_pass<N: Scalar, C: Probes<N>>(
    c: &C,
    frame: Frame<N>,
    scope: Scope<N>,
    at: Anchor<N>,
    delta: Delta<N>,
    before: Trial<N>,
    after: Trial<N>,
) -> bool {
    exists|moved: Frame<N>|
        before.least.is_transform(frame, moved) && match delta {
            Delta::Frame => after == (Trial { bound: false, ..before }),
            Delta::First { yaw_axis, .. } => exists|hit: Option<Plane<N>>|
                call_ensures(C::target, (c, &moved), hit) && after.rat == before.rat
                    && after.bound == (hit is Some) && is_target_looked(
                    frame,
                    at,
                    moved,
                    hit,
                    yaw_axis,
                    before.least,
                    after.least,
                ),
            Delta::Track { .. } => exists|hit: Option<Plane<N>>, glided: Delta<N>|
                call_ensures(C::target, (c, &moved), hit) && is_target_glided(
                    at,
                    moved,
                    hit,
                    true,
                    before.least,
                    glided,
                ) && is_upright(c, frame, glided, before.rat, hit is Some, after),
            Delta::Orbit { pos, .. } => exists|hit: Option<Plane<N>>, glided: Delta<N>|
                call_ensures(C::eye, (c, &moved), hit) && is_eye_glided(
                    at,
                    moved,
                    hit,
                    pos,
                    before.least,
                    glided,
                ) && is_upright(c, frame, glided, before.rat, hit is Some, after),
            Delta::Slide { .. } => exists|hit: Option<Plane<N>>, glided: Delta<N>|
                call_ensures(C::target, (c, &moved), hit) && is_target_glided(
                    at,
                    moved,
                    hit,
                    false,
                    before.least,
                    glided,
                ) && is_eye_slid(c, frame, at, glided, before.rat, hit is Some, after),
            Delta::Scale { pos, .. } => exists|hit: Option<Plane<N>>|
                call_ensures(C::eye, (c, &moved), hit) && is_scaled(
                    scope,
                    at,
                    pos,
                    Trial {
                        least: if hit is Some {
                            Delta::Frame
                        } else {
                            before.least
                        },
                        rat: before.rat,
                        bound: hit is Some,
                    },
                    after,
                ),
        }
}

/// `glided` looks at the target on the rim of the cap that the exceeded plane cuts off, if
/// any, else it is the delta as before.
pub open spec fn is_target_looked<N: Scalar>(
    frame: Frame<N>,
    at: Anchor<N>,
    moved: Frame<N>,
    hit: Option<Plane<N>>,
    yaw_axis: Vec3<N>,
    before: Delta<N>,
    glided: Delta<N>,
) -> bool {
    match hit {
        Some(plane) => exists|pitch: N, yaw: N|
            is_looked(frame, at, plane, moved.pos, yaw_axis, pitch, yaw) && glided
                == (Delta::First { pitch, yaw, yaw_axis }),
        None => glided == before,
    }
}

/// `glided` tracks or slides the target to the projection of the exceeding target onto the
/// exceeded plane, if any, else it is the delta as before.
pub open spec fn is_target_glided<N: Scalar>(
    at: Anchor<N>,
    moved: Frame<N>,
    hit: Option<Plane<N>>,
    track: bool,
    before: Delta<N>,
    glided: Delta<N>,
) -> bool {
    match hit {
        Some(plane) => exists|vec: Vec3<N>|
            is_slid(at.target, at.back, plane, moved.pos, vec) && glided == if track {
                Delta::Track { vec }
            } else {
                Delta::Slide { vec }
            },
        None => glided == before,
    }
}

/// `glided` orbits the eye around `pos` along the exceeded plane, if any, else it is the
/// delta as before.
pub open spec fn is_eye_glided<N: Scalar>(
    at: Anchor<N>,
    moved: Frame<N>,
    hit: Option<Plane<N>>,
    pos: Vec3<N>,
    before: Delta<N>,
    glided: Delta<N>,
) -> bool {
    match hit {
        Some(plane) => exists|eye: Vec3<N>, rot: Quat<N>|
            moved.is_eye(eye) && is_capped(at, plane, eye, rot) && glided == (Delta::Orbit {
                rot,
                pos,
            }),
        None => glided == before,
    }
}

/// `after` is the identity if the up axis of the frame under `glided` exceeds a boundary,
/// else `glided`; a boundary was met if one was met before or now.
pub open spec fn is_upright<N: Scalar, C: Probes<N>>(
    c: &C,
    frame: Frame<N>,
    glided: Delta<N>,
    rat: Option<N>,
    bound: bool,
    after: Trial<N>,
) -> bool {
    exists|moved: Frame<N>, hit: Option<Plane<N>>|
        glided.is_transform(frame, moved) && call_ensures(C::up, (c, &moved), hit) && after == (Trial {
            least: if hit is Some {
                Delta::Frame
            } else {
                glided
            },
            rat,
            bound: bound || (hit is Some),
        })
}

/// `after` slides to the projection of the eye of the frame under `glided` onto the
/// boundary that this eye exceeds, if any, else it is `glided`; a boundary was met if one
/// was met before or now.
pub open spec fn is_eye_slid<N: Scalar, C: Probes<N>>(
    c: &C,
    frame: Frame<N>,
    at: Anchor<N>,
    glided: Delta<N>,
    rat: Option<N>,
    bound: bool,
    after: Trial<N>,
) -> bool {
    exists|moved: Frame<N>, hit: Option<Plane<N>>|
        glided.is_transform(frame, moved) && call_ensures(C::eye, (c, &moved), hit) && match hit {
            Some(plane) => exists|eye: Vec3<N>, vec: Vec3<N>|
                moved.is_eye(eye) && is_slid(at.eye, at.back, plane, eye, vec) && after == (Trial {
                    least: Delta::Slide { vec },
                    rat,
                    bound: true,
                }),
            None => after == (Trial { least: glided, rat, bound }),
        }
}

/// Outside of object inspection mode and without a ratio, `after` is `stopped`. Else the
/// initial distance scaled by the ratio tried last is compared with the least distance: if
/// it is less, the ratio becomes the least over the initial distance, a boundary is met, and
/// the least delta scales by that ratio around `pos`; if not, `after` is `stopped`.
pub open spec fn is_scaled<N: Scalar>(
    scope: Scope<N>,
    at: Anchor<N>,
    pos: Vec3<N>,
    stopped: Trial<N>,
    after: Trial<N>,
) -> bool {
    match stopped.rat {
        Some(rat) if scope.oim => exists|least: N, zat: N, less: bool|
            is_least_zat(scope, least) && op::times(at.zat, rat, zat) && op::less(zat, least, less)
                && if less {
                exists|landing: N|
                    op::over(least, at.zat, landing) && after == (Trial {
                        least: Delta::Scale { rat: landing, pos },
                        rat: Some(landing),
                        bound: true,
                    })
            } else {
                after == stopped
            },
        _ => after == stopped,
    }
}

/// `clamped` is what repeated validation yields from the trial `now` after `loops`
/// repeated passes: the outcome of the pass is validated again if a boundary was met and
/// fewer than `limit` passes have been repeated, and is settled else.
pub open spec fn is_revalidated<N: Scalar, C: Probes<N>>(
    c: &C,
    frame: Frame<N>,
    scope: Scope<N>,
    at: Anchor<N>,
    delta: Delta<N>,
    now: Trial<N>,
    loops: usize,
    limit: usize,
    clamped: Option<(Delta<N>, usize)>,
) -> bool
    decreases limit - loops,
{
    exists|after: Trial<N>|
        is_pass(c, frame, scope, at, delta, now, after) && if after.bound && loops < limit {
            is_revalidated(c, frame, scope, at, delta, after, (loops + 1) as usize, limit, clamped)
        } else {
            is_settle(delta, after.least, loops, clamped)
        }
}

/// `clamped` is what clamping the requested delta yields.
///
/// The identity is never clamped. An orbit or a scale around a pivot that does not compare
/// equal to the origin is stopped at once. Any other delta is validated repeatedly, starting
/// from itself.
pub open spec fn is_compute<N: Scalar, C: Probes<N>>(
    c: &C,
    frame: Frame<N>,
    scope: Scope<N>,
    delta: Delta<N>,
    clamped: Option<(Delta<N>, usize)>,
) -> bool {
    match delta {
        Delta::Frame => clamped is None,
        Delta::Orbit { pos, .. } => exists|center: Vec3<N>, centered: bool|
            is_origin(center) && is_same_vec(pos, center, centered) && if centered {
                is_validated(c, frame, scope, delta, None, clamped)
            } else {
                clamped == Some((Delta::<N>::Frame, 0usize))
            },
        Delta::Scale { rat, pos } => exists|center: Vec3<N>, centered: bool|
            is_origin(center) && is_same_vec(pos, center, centered) && if centered {
                is_validated(c, frame, scope, delta, Some(rat), clamped)
            } else {
                clamped == Some((Delta::<N>::Frame, 0usize))
            },
        _ => is_validated(c, frame, scope, delta, None, clamped),
    }
}

/// `clamped` is what repeated validation yields from the requested delta itself, with no
/// more repeated passes than the probes allow loops.
pub open spec fn is_validated<N: Scalar, C: Probes<N>>(
    c: &C,
    frame: Frame<N>,
    scope: Scope<N>,
    delta: Delta<N>,
    rat: Option<N>,
    clamped: Option<(Delta<N>, usize)>,
) -> bool {
    exists|at: Anchor<N>, limit: usize|
        is_anchor(frame, at) && call_ensures(C::loops, (c,), limit) && is_revalidated(
            c,
            frame,
            scope,
            at,
            delta,
            Trial { least: delta, rat, bound: false },
            0,
            limit,
            clamped,
        ) && (clamped matches Some((_, loops)) ==> loops <= limit)
}

/// The target probe yields no plane on a frame that `least` makes of `frame`.
pub open spec fn target_passes<N: Scalar, C: Probes<N>>(c: &C, frame: Frame<N>, least: Delta<N>) -> bool {
    exists|moved: Frame<N>|
        least.is_transform(frame, moved) && call_ensures(C::target, (c, &moved), None::<Plane<N>>)
}

/// The eye probe yields no plane on a frame that `least` makes of `frame`.
pub open spec fn eye_passes<N: Scalar, C: Probes<N>>(c: &C, frame: Frame<N>, least: Delta<N>) -> bool {
    exists|moved: Frame<N>|
        least.is_transform(frame, moved) && call_ensures(C::eye, (c, &moved), None::<Plane<N>>)
}

/// The up probe yields no plane on a frame that `least` makes of `frame`.
pub open spec fn up_passes<N: Scalar, C: Probes<N>>(c: &C, frame: Frame<N>, least: Delta<N>) -> bool {
    exists|moved: Frame<N>|
        least.is_transform(frame, moved) && call_ensures(C::up, (c, &moved), None::<Plane<N>>)
}

/// Each probe that validates the requested operation yields no plane on a frame that
/// `least` makes of `frame`: the target probe for first person view, target and up probe
/// for tracking, eye and up probe for orbiting, target and eye probe for sliding, and the
/// eye probe for scaling.
pub open spec fn passes<N: Scalar, C: Probes<N>>(
    c: &C,
    frame: Frame<N>,
    delta: Delta<N>,
    least: Delta<N>,
) -> bool {
    match delta {
        Delta::Frame => true,
        Delta::First { .. } => target_passes(c, frame, least),
        Delta::Track { .. } => target_passes(c, frame, least) && up_passes(c, frame, least),
        Delta::Orbit { .. } => eye_passes(c, frame, least) && up_passes(c, frame, least),
        Delta::Slide { .. } => target_passes(c, frame, least) && eye_passes(c, frame, least),
        Delta::Scale { .. } => eye_passes(c, frame, least),
    }
}

/// A validation pass that meets no boundary leaves the least delta as it is, and each probe
/// that validates the requested operation has yielded no plane on a frame that this delta
/// makes of the initial one.
pub proof fn lemma_quiet_pass<N: Scalar, C: Probes<N>>(
    c: &C,
    frame: Frame<N>,
    scope: Scope<N>,
    at: Anchor<N>,
    delta: Delta<N>,
    before: Trial<N>,
    after: Trial<N>,
)
    requires
        is_pass(c, frame, scope, at, delta, before, after),
        !after.bound,
    ensures
        after.least == before.least,
        passes(c, frame, delta, after.least),
{
}

/// A validation pass makes a delta that fits the requested one of a delta that fits it.
pub proof fn lemma_pass_fits<N: Scalar, C: Probes<N>>(
    c: &C,
    frame: Frame<N>,
    scope: Scope<N>,
    at: Anchor<N>,
    delta: Delta<N>,
    before: Trial<N>,
    after: Trial<N>,
)
    requires
        is_pass(c, frame, scope, at, delta, before, after),
        fits(delta, before.least),
    ensures
        fits(delta, after.least),
{
}

/// Repeated validation repeats no more passes than the limit allows and yields a delta
/// that fits the requested one if the one it starts from does, and a delta that it yields
/// before the limit is reached has passed each probe that validates the requested
/// operation.
pub proof fn lemma_revalidated<N: Scalar, C: Probes<N>>(
    c: &C,
    frame: Frame<N>,
    scope: Scope<N>,
    at: Anchor<N>,
    delta: Delta<N>,
    now: Trial<N>,
    loops: usize,
    limit: usize,
    least: Delta<N>,
    used: usize,
)
    requires
        loops <= limit,
        is_revalidated(c, frame, scope, at, delta, now, loops, limit, Some((least, used))),
    ensures
        loops <= used <= limit,
        used < limit ==> passes(c, frame, delta, least),
        fits(delta, now.least) ==> fits(delta, least),
    decreases limit - loops,
{
    let after = choose|after: Trial<N>|
        is_pass(c, frame, scope, at, delta, now, after) && if after.bound && loops < limit {
            is_revalidated(
                c,
                frame,
                scope,
                at,
                delta,
                after,
                (loops + 1) as usize,
                limit,
                Some((least, used)),
            )
        } else {
            is_settle(delta, after.least, loops, Some((least, used)))
        };
    if fits(delta, now.least) {
        lemma_pass_fits(c, frame, scope, at, delta, now, after);
    }
    if after.bound && loops < limit {
        lemma_revalidated(
            c,
            frame,
            scope,
            at,
            delta,
            after,
            (loops + 1) as usize,
            limit,
            least,
            used,
        );
    } else {
        assert(least == after.least && used == loops);
        if used < limit {
            lemma_quiet_pass(c, frame, scope, at, delta, now, after);
        }
    }
}

/// A clamped delta fits the requested one, which is not the identity, and is yielded after
/// no more repeated passes than the probes allow loops. Unless it stops an orbit or a scale around a pivot off the origin at once, a clamped
/// delta that is yielded before the loops run out has passed each probe that validates the
/// requested operation: no boundary is exceeded by a frame that it makes of the initial one.
pub proof fn lemma_clamped_passes<N: Scalar, C: Probes<N>>(
    c: &C,
    frame: Frame<N>,
    scope: Scope<N>,
    delta: Delta<N>,
    least: Delta<N>,
    used: usize,
)
    requires
        is_compute(c, frame, scope, delta, Some((least, used))),
    ensures
        clamps(delta, Some((least, used))),
        (least is Frame && used == 0 && (delta is Orbit || delta is Scale)) || exists|limit: usize|
            call_ensures(C::loops, (c,), limit) && used <= limit && (used < limit ==> passes(
                c,
                frame,
                delta,
                least,
            )),
{
    let rat = match delta {
        Delta::Scale { rat, .. } => Some(rat),
        _ => None,
    };
    if is_validated(c, frame, scope, delta, rat, Some((least, used))) {
        let (at, limit) = choose|at: Anchor<N>, limit: usize|
            is_anchor(frame, at) && call_ensures(C::loops, (c,), limit) && is_revalidated(
                c,
                frame,
                scope,
                at,
                delta,
                Trial { least: delta, rat, bound: false },
                0,
                limit,
                Some((least, used)),
            ) && used <= limit;
        lemma_revalidated(
            c,
            frame,
            scope,
            at,
            delta,
            Trial { least: delta, rat, bound: false },
            0,
            limit,
            least,
            used,
        );
    }
}

/// Each probe is a function of the frame, and the number of loops is fixed.
pub open spec fn is_function<N: Scalar, C: Probes<N>>(c: &C) -> bool {
    &&& forall|frame: Frame<N>, first: Option<Plane<N>>, second: Option<Plane<N>>| #![trigger call_ensures(C::target, (c, &frame), first), call_ensures(C::target, (c, &frame), second)]
        call_ensures(C::target, (c, &frame), first) && call_ensures(
            C::target,
            (c, &frame),
            second,
        ) ==> first == second
    &&& forall|frame: Frame<N>, first: Option<Plane<N>>, second: Option<Plane<N>>| #![trigger call_ensures(C::eye, (c, &frame), first), call_ensures(C::eye, (c, &frame), second)]
        call_ensures(C::eye, (c, &frame), first) && call_ensures(C::eye, (c, &frame), second)
            ==> first == second
    &&& forall|frame: Frame<N>, first: Option<Plane<N>>, second: Option<Plane<N>>| #![trigger call_ensures(C::up, (c, &frame), first), call_ensures(C::up, (c, &frame), second)]
        call_ensures(C::up, (c, &frame), first) && call_ensures(C::up, (c, &frame), second)
            ==> first == second
    &&& forall|first: usize, second: usize| #![trigger call_ensures(C::loops, (c,), first), call_ensures(C::loops, (c,), second)]
        call_ensures(C::loops, (c,), first) && call_ensures(C::loops, (c,), second) ==> first
            == second
}

/// Over a field whose operations are functions and with probes that are functions, a
/// validation pass has one outcome.
pub proof fn lemma_pass_is_function<N: Scalar, C: Probes<N>>(
    c: &C,
    frame: Frame<N>,
    scope: Scope<N>,
    at: Anchor<N>,
    delta: Delta<N>,
    before: Trial<N>,
    one: Trial<N>,
    other: Trial<N>,
)
    requires
        op::is_function::<N>(),
        is_function(c),
        is_pass(c, frame, scope, at, delta, before, one),
        is_pass(c, frame, scope, at, delta, before, other),
    ensures
        one == other,
{
}

/// Over a field whose operations are functions and with probes that are functions,
/// repeated validation has one outcome.
pub proof fn lemma_revalidated_is_function<N: Scalar, C: Probes<N>>(
    c: &C,
    frame: Frame<N>,
    scope: Scope<N>,
    at: Anchor<N>,
    delta: Delta<N>,
    now: Trial<N>,
    loops: usize,
    limit: usize,
    one: Option<(Delta<N>, usize)>,
    other: Option<(Delta<N>, usize)>,
)
    requires
        op::is_function::<N>(),
        is_function(c),
        loops <= limit,
        is_revalidated(c, frame, scope, at, delta, now, loops, limit, one),
        is_revalidated(c, frame, scope, at, delta, now, loops, limit, other),
    ensures
        one == other,
    decreases limit - loops,
{
    let after = choose|after: Trial<N>|
        is_pass(c, frame, scope, at, delta, now, after) && if after.bound && loops < limit {
            is_revalidated(c, frame, scope, at, delta, after, (loops + 1) as usize, limit, one)
        } else {
            is_settle(delta, after.least, loops, one)
        };
    let again = choose|after: Trial<N>|
        is_pass(c, frame, scope, at, delta, now, after) && if after.bound && loops < limit {
            is_revalidated(c, frame, scope, at, delta, after, (loops + 1) as usize, limit, other)
        } else {
            is_settle(delta, after.least, loops, other)
        };
    lemma_pass_is_function(c, frame, scope, at, delta, now, after, again);
    if after.bound && loops < limit {
        lemma_revalidated_is_function(
            c,
            frame,
            scope,
            at,
            delta,
            after,
            (loops + 1) as usize,
            limit,
            one,
            other,
        );
    }
}

/// Equal inputs give equal results: over a field whose operations are functions and with
/// probes that are functions, clamping a delta has one outcome.
pub proof fn lemma_compute_is_function<N: Scalar, C: Probes<N>>(
    c: &C,
    frame: Frame<N>,
    scope: Scope<N>,
    delta: Delta<N>,
    one: Option<(Delta<N>, usize)>,
    other: Option<(Delta<N>, usize)>,
)
    requires
        op::is_function::<N>(),
        is_function(c),
        is_compute(c, frame, scope, delta, one),
        is_compute(c, frame, scope, delta, other),
    ensures
        one == other,
{
    let rat = match delta {
        Delta::Scale { rat, .. } => Some(rat),
        _ => None,
    };
    if is_validated(c, frame, scope, delta, rat, one) && is_validated(
        c,
        frame,
        scope,
        delta,
        rat,
        other,
    ) {
        let start = Trial { least: delta, rat, bound: false };
        let (at, limit) = choose|at: Anchor<N>, limit: usize|
            is_anchor(frame, at) && call_ensures(C::loops, (c,), limit) && is_revalidated(
                c,
                frame,
                scope,
                at,
                delta,
                start,
                0,
                limit,
                one,
            );
        let (again, bound) = choose|at: Anchor<N>, limit: usize|
            is_anchor(frame, at) && call_ensures(C::loops, (c,), limit) && is_revalidated(
                c,
                frame,
                scope,
                at,
                delta,
                start,
                0,
                limit,
                other,
            );
        assert(at == again && limit == bound);
        lemma_revalidated_is_function(c, frame, scope, at, delta, start, 0, limit, one, other);
    }
}

/// The fast case: over a field whose operations are functions and with probes that are
/// functions, a first person view, a tracking or a slide that compares equal to itself and
/// passes each probe that validates it is not clamped.
pub proof fn lemma_free_delta_is_not_clamped<N: Scalar, C: Probes<N>>(
    c: &C,
    frame: Frame<N>,
    scope: Scope<N>,
    delta: Delta<N>,
    clamped: Option<(Delta<N>, usize)>,
)
    requires
        op::is_function::<N>(),
        is_function(c),
        delta is First || delta is Track || delta is Slide,
        delta.is_same(delta, true),
        passes(c, frame, delta, delta),
        is_compute(c, frame, scope, delta, clamped),
    ensures
        clamped is None,
{
    let start = Trial { least: delta, rat: None, bound: false };
    let (at, limit) = choose|at: Anchor<N>, limit: usize|
        is_anchor(frame, at) && call_ensures(C::loops, (c,), limit) && is_revalidated(
            c,
            frame,
            scope,
            at,
            delta,
            start,
            0,
            limit,
            clamped,
        );
    let after = choose|after: Trial<N>|
        is_pass(c, frame, scope, at, delta, start, after) && if after.bound && 0 < limit {
            is_revalidated(c, frame, scope, at, delta, after, 1, limit, clamped)
        } else {
            is_settle(delta, after.least, 0, clamped)
        };
    assert(after == start);
}

/// Over a field whose operations are functions and with probes that are functions and
/// allow a loop at least, a first person view, a tracking or a slide that compares equal
/// to itself is clamped after one repeated validation pass at least.
pub proof fn lemma_clamped_after_a_pass<N: Scalar, C: Probes<N>>(
    c: &C,
    frame: Frame<N>,
    scope: Scope<N>,
    delta: Delta<N>,
    least: Delta<N>,
    used: usize,
    limit: usize,
)
    requires
        op::is_function::<N>(),
        is_function(c),
        delta is First || delta is Track || delta is Slide,
        delta.is_same(delta, true),
        call_ensures(C::loops, (c,), limit),
        limit >= 1,
        is_compute(c, frame, scope, delta, Some((least, used))),
    ensures
        1 <= used <= limit,
{
    let start = Trial { least: delta, rat: None, bound: false };
    let (at, bound) = choose|at: Anchor<N>, limit: usize|
        is_anchor(frame, at) && call_ensures(C::loops, (c,), limit) && is_revalidated(
            c,
            frame,
            scope,
            at,
            delta,
            start,
            0,
            limit,
            Some((least, used)),
        );
    assert(bound == limit);
    let after = choose|after: Trial<N>|
        is_pass(c, frame, scope, at, delta, start, after) && if after.bound && 0 < limit {
            is_revalidated(c, frame, scope, at, delta, after, 1, limit, Some((least, used)))
        } else {
            is_settle(delta, after.least, 0, Some((least, used)))
        };
    if after.bound {
        lemma_revalidated(c, frame, scope, at, delta, after, 1, limit, least, used);
    } else {
        lemma_quiet_pass(c, frame, scope, at, delta, start, after);
    }
}

/// Validates the least delta found so far against the boundary conditions once and changes it
/// in such a way that it glides along an exceeded boundary plane or stops.
pub fn pass<N: Scalar, C: Probes<N>>(
    c: &C,
    frame: &Frame<N>,
    scope: &Scope<N>,
    at: &Anchor<N>,
    delta: &Delta<N>,
    before: Trial<N>,
) -> (after: Trial<N>)
    ensures
        is_pass(c, *frame, *scope, *at, *delta, before, after),
        fits(*delta, before.least) ==> fits(*delta, after.least),
{
    let moved = before.least.transform(frame);
    match *delta {
        Delta::Frame => Trial { bound: false, ..before },
        Delta::First { yaw_axis, .. } => {
            let hit = c.target(&moved);
            let glided = match hit {
                Some(plane) => {
                    let (pitch, yaw) = looked(frame, at, &plane, &moved.pos, yaw_axis);
                    Delta::First { pitch, yaw, yaw_axis }
                },
                None => before.least,
            };
            let after = Trial { least: glided, rat: before.rat, bound: hit.is_some() };
            assert(call_ensures(C::target, (c, &moved), hit) && is_target_looked(
                *frame,
                *at,
                moved,
                hit,
                yaw_axis,
                before.least,
                after.least,
            ));
            after
        },
        Delta::Track { .. } => {
            let hit = c.target(&moved);
            let glided = match hit {
                Some(plane) => Delta::Track { vec: slid(&at.target, &at.back, &plane, &moved.pos) },
                None => before.least,
            };
            let after = upright(c, frame, glided, before.rat, hit.is_some());
            assert(call_ensures(C::target, (c, &moved), hit) && is_target_glided(
                *at,
                moved,
                hit,
                true,
                before.least,
                glided,
            ) && is_upright(c, *frame, glided, before.rat, hit is Some, after));
            after
        },
        Delta::Orbit { pos, .. } => {
            let hit = c.eye(&moved);
            let glided = match hit {
                Some(plane) => {
                    let eye = moved.eye();
                    Delta::Orbit { rot: capped(at, &plane, &eye), pos }
                },
                None => before.least,
            };
            let after = upright(c, frame, glided, before.rat, hit.is_some());
            assert(call_ensures(C::eye, (c, &moved), hit) && is_eye_glided(
                *at,
                moved,
                hit,
                pos,
                before.least,
                glided,
            ) && is_upright(c, *frame, glided, before.rat, hit is Some, after));
            after
        },
        Delta::Slide { .. } => {
            let hit = c.target(&moved);
            let glided = match hit {
                Some(plane) => Delta::Slide { vec: slid(&at.target, &at.back, &plane, &moved.pos) },
                None => before.least,
            };
            let after = eye_slid(c, frame, at, glided, before.rat, hit.is_some());
            assert(call_ensures(C::target, (c, &moved), hit) && is_target_glided(
                *at,
                moved,
                hit,
                false,
                before.least,
                glided,
            ) && is_eye_slid(c, *frame, *at, glided, before.rat, hit is Some, after));
            after
        },
        Delta::Scale { pos, .. } => {
            let hit = c.eye(&moved);
            let stopped = Trial {
                least: if hit.is_some() {
                    Delta::Frame
                } else {
                    before.least
                },
                rat: before.rat,
                bound: hit.is_some(),
            };
            let after = scaled(scope, at, pos, stopped);
            assert(call_ensures(C::eye, (c, &moved), hit) && is_scaled(
                *scope,
                *at,
                pos,
                stopped,
                after,
            ));
            after
        },
    }
}

/// Stops the glided delta if the up axis exceeds a boundary.
pub fn upright<N: Scalar, C: Probes<N>>(
    c: &C,
    frame: &Frame<N>,
    glided: Delta<N>,
    rat: Option<N>,
    bound: bool,
) -> (after: Trial<N>)
    ensures
        is_upright(c, *frame, glided, rat, bound, after),
        after.least is Frame || after.least == glided,
{
    let moved = glided.transform(frame);
    let hit = c.up(&moved);
    let after = if hit.is_some() {
        Trial { least: Delta::Frame, rat, bound: true }
    } else {
        Trial { least: glided, rat, bound }
    };
    assert(glided.is_transform(*frame, moved) && call_ensures(C::up, (c, &moved), hit));
    after
}

/// Glides the glided slide along the boundary that the eye exceeds.
pub fn eye_slid<N: Scalar, C: Probes<N>>(
    c: &C,
    frame: &Frame<N>,
    at: &Anchor<N>,
    glided: Delta<N>,
    rat: Option<N>,
    bound: bool,
) -> (after: Trial<N>)
    ensures
        is_eye_slid(c, *frame, *at, glided, rat, bound, after),
        after.least is Slide || after.least == glided,
{
    let moved = glided.transform(frame);
    let hit = c.eye(&moved);
    let after = match hit {
        Some(plane) => {
            let eye = moved.eye();
            let vec = slid(&at.eye, &at.back, &plane, &eye);
            assert(moved.is_eye(eye) && is_slid(at.eye, at.back, plane, eye, vec));
            Trial { least: Delta::Slide { vec }, rat, bound: true }
        },
        None => Trial { least: glided, rat, bound },
    };
    assert(glided.is_transform(*frame, moved) && call_ensures(C::eye, (c, &moved), hit));
    after
}

/// Lands the scale on the least distance in object inspection mode.
pub fn scaled<N: Scalar>(scope: &Scope<N>, at: &Anchor<N>, pos: Vec3<N>, stopped: Trial<N>) -> (after:
    Trial<N>)
    ensures
        is_scaled(*scope, *at, pos, stopped, after),
        after == stopped || (after.least matches Delta::Scale { pos: pivot, .. } && pivot == pos),
{
    match stopped.rat {
        Some(rat) => {
            if scope.scale() {
                let least = least_zat(scope);
                let zat = at.zat.times(rat);
                let less = zat.less(least);
                assert(op::times(at.zat, rat, zat) && op::less(zat, least, less));
                if less {
                    let landing = least.over(at.zat);
                    assert(op::over(least, at.zat, landing));
                    Trial {
                        least: Delta::Scale { rat: landing, pos },
                        rat: Some(landing),
                        bound: true,
                    }
                } else {
                    stopped
                }
            } else {
                stopped
            }
        },
        None => stopped,
    }
}

/// Boundary conditions of [`Frame`] as probes for exceeded boundary planes.
///
/// Each probe returns a single exceeded boundary plane for the position or direction it
/// tracks, or none. Several exceeded planes are found one by one as the clamped delta is
/// validated repeatedly.
pub trait Probes<N: Scalar>: Sized {
    /// Maximum loops due to maximum possible boundary plane intersections.
    ///
    /// Measure to break out of validation loop as last resort. Default is a hundred. Round
    /// boundary conditions require more loops whereas flat ones should stop with the 3rd
    /// validation (i.e., a corner) for each validated position (e.g., target, eye).
    fn loops(&self) -> (loops: usize)
        default_ensures
            loops == 100,
    {
        100
    }

    /// Exceeded boundary plane for target position in world space.
    ///
    /// Must return `None` if target position satisfies all boundary conditions.
    fn target(&self, frame: &Frame<N>) -> Option<Plane<N>>;

    /// Exceeded boundary plane for eye position in world space.
    ///
    /// Must return `None` if eye position satisfies all boundary conditions.
    fn eye(&self, frame: &Frame<N>) -> Option<Plane<N>>;

    /// Exceeded boundary plane for up position in world space.
    ///
    /// Must return `None` if up position satisfies all boundary conditions.
    fn up(&self, frame: &Frame<N>) -> Option<Plane<N>>;
}

/// Clamp wrt abstract boundary conditions of [`Frame`] and [`Scope`].
///
/// Specific boundary conditions are defined by trait implementations.
///
/// Exceeding a boundary condition is communicated by specifying an exceeded plane. If the plane is
/// orthogonal to [`Delta`], it is completely stopped. If not, it glides along the plane. In this
/// case, the direction of [`Delta`] is changed by projecting the exceeded position onto the
/// boundary plane and finding the [`Delta`] from initial to projected position. This projected
/// [`Delta`] is repeatedly revalidated wrt boundary conditions until no new boundary plane is
/// exceeded. For orthogonal boundary conditions (e.g., a box), revalidation usually passes after
/// one, two, or three loops whenever zero, one, or two boundary conditions intersect (i.e., face,
/// edge, or corner).
pub trait Clamp<N: Scalar>: Probes<N> {

    /// Computes clamped [`Delta`] wrt abstract boundary conditions of [`Frame`] and [`Scope`].
    ///
    /// Returns `None` if [`Delta`] satisfies all boundary conditions, else the clamped delta
    /// and the number of validation passes that had to be repeated.
    ///
    /// An orbit or a scale around a pivot other than the origin cannot be clamped and is
    /// stopped completely at once.
    fn compute(&self, frame: &Frame<N>, scope: &Scope<N>, delta: &Delta<N>) -> (clamped: Option<
        (Delta<N>, usize),
    >)
        ensures
            is_compute(self, *frame, *scope, *delta, clamped),
            clamps(*delta, clamped),
    {
        let ghost mut center = frame.pos;
        let rat = match *delta {
            Delta::Frame => {
                return None;
            },
            Delta::Orbit { pos, .. } => {
                let middle = origin();
                if !same_vec(&pos, &middle) {
                    return Some((Delta::Frame, 0));
                }
                proof {
                    center = middle;
                }
                None
            },
            Delta::Scale { rat, pos } => {
                let middle = origin();
                if !same_vec(&pos, &middle) {
                    return Some((Delta::Frame, 0));
                }
                proof {
                    center = middle;
                }
                Some(rat)
            },
            _ => None,
        };
        assert(*delta matches Delta::Orbit { pos, .. } ==> is_origin(center) && is_same_vec(
            pos,
            center,
            true,
        ));
        assert(*delta matches Delta::Scale { pos, .. } ==> is_origin(center) && is_same_vec(
            pos,
            center,
            true,
        ));
        let limit = self.loops();
        let at = anchor(frame);
        let ghost start = Trial { least: *delta, rat, bound: false };
        let mut now = Trial { least: *delta, rat, bound: false };
        let mut loops: usize = 0;
        loop
            invariant
                call_ensures(Self::loops, (self,), limit),
                loops <= limit,
                is_anchor(*frame, at),
                start == (Trial { least: *delta, rat, bound: false }),
                !(*delta is Frame),
                *delta matches Delta::Orbit { pos, .. } ==> is_origin(center) && is_same_vec(
                    pos,
                    center,
                    true,
                ),
                *delta matches Delta::Scale { pos, rat: first } ==> rat == Some(first)
                    && is_origin(center) && is_same_vec(pos, center, true),
                !(*delta is Scale) ==> rat is None,
                fits(*delta, now.least),
                forall|clamped: Option<(Delta<N>, usize)>| #[trigger]
                    is_revalidated(self, *frame, *scope, at, *delta, now, loops, limit, clamped)
                        ==> is_revalidated(
                        self,
                        *frame,
                        *scope,
                        at,
                        *delta,
                        start,
                        0,
                        limit,
                        clamped,
                    ),
            decreases limit - loops,
        {
            let after = pass(self, frame, scope, &at, delta, now);
            match advance(after.bound, loops, limit) {
                Some(next) => {
                    assert forall|clamped: Option<(Delta<N>, usize)>| #[trigger]
                        is_revalidated(
                            self,
                            *frame,
                            *scope,
                            at,
                            *delta,
                            after,
                            next,
                            limit,
                            clamped,
                        ) implies is_revalidated(
                        self,
                        *frame,
                        *scope,
                        at,
                        *delta,
                        now,
                        loops,
                        limit,
                        clamped,
                    ) by {}
                    now = after;
                    loops = next;
                },
                None => {
                    let clamped = settle(delta, after.least, loops);
                    assert(is_revalidated(
                        self,
                        *frame,
                        *scope,
                        at,
                        *delta,
                        now,
                        loops,
                        limit,
                        clamped,
                    ));
                    assert(is_validated(self, *frame, *scope, *delta, rat, clamped));
                    return clamped;
                },
            }
        }
    }
}

/// Every set of probes clamps by repeated validation.
impl<N: Scalar, C: Probes<N>> Clamp<N> for C {

}

} // verus!
