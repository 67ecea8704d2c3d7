//! Delta transform from initial to final frame.
use vstd::prelude::*;
use crate::field::{
    cast_quat, cast_vec3, is_cast, is_cast_quat, is_cast_vec3, Cast, Quat, Scalar, Vec3,
};
use crate::frame::{is_origin, is_same_vec, same_vec, Frame};
use crate::op;

verus! {

/// Delta transform from initial to final [`Frame`].
#[derive(Clone, Copy, Debug)]
pub enum Delta<N> {
    /// Yields frame as identity transform (default).
    Frame,
    /// Orbits target around eye by pitch and yaw preserving roll attitude aka first person view.
    First {
        /// Pitch angle.
        pitch: N,
        /// Yaw angle.
        yaw: N,
        /// Yaw axis.
        yaw_axis: Vec3<N>,
    },
    /// Tracks target which slides by vector in world space.
    ///
    /// Preserves eye position inclusive its roll attitude.
    Track {
        /// Vector in world space of a sliding target to track.
        vec: Vec3<N>,
    },
    /// Orbits eye by rotation in camera space around point in camera space.
    Orbit {
        /// Rotation in camera space.
        rot: Quat<N>,
        /// Point in camera space.
        pos: Vec3<N>,
    },
    /// Slides camera eye and target by vector in camera space.
    Slide {
        /// Vector in camera space.
        vec: Vec3<N>,
    },
    /// Scales distance between eye and point in camera space by ratio preserving target position.
    Scale {
        /// Scale ratio.
        rat: N,
        /// Point in camera space.
        pos: Vec3<N>,
    },
}

/// Operation a delta requests, without its parameters.
#[derive(Clone, Copy, Debug, PartialEq, Eq, Structural)]
pub enum Kind {
    /// Identity transform.
    Frame,
    /// First person view.
    First,
    /// Target tracking.
    Track,
    /// Orbit around a pivot.
    Orbit,
    /// Slide in camera space.
    Slide,
    /// Scale around a pivot.
    Scale,
}

/// `pick` is the scalar of smaller absolute value, `a` on a tie.
pub open spec fn is_smaller<N: Scalar>(a: N, b: N, pick: N) -> bool {
    exists|size: N, other: N, less: bool|
        op::abs(a, size) && op::abs(b, other) && op::less(other, size, less) && pick == if less {
            b
        } else {
            a
        }
}

/// `pick` has of each component the one of smaller absolute value.
pub open spec fn is_smaller_vec<N: Scalar>(a: Vec3<N>, b: Vec3<N>, pick: Vec3<N>) -> bool {
    is_smaller(a.x, b.x, pick.x) && is_smaller(a.y, b.y, pick.y) && is_smaller(a.z, b.z, pick.z)
}

/// The scalar of smaller magnitude, the first one on a tie.
pub fn smaller<N: Scalar>(a: N, b: N) -> (pick: N)
    ensures
        is_smaller(a, b, pick),
{
    let size = a.abs();
    let other = b.abs();
    if other.less(size) {
        b
    } else {
        a
    }
}

/// The vector of the components of smaller magnitude.
pub fn smaller_vec<N: Scalar>(a: Vec3<N>, b: Vec3<N>) -> (pick: Vec3<N>)
    ensures
        is_smaller_vec(a, b, pick),
{
    Vec3 { x: smaller(a.x, b.x), y: smaller(a.y, b.y), z: smaller(a.z, b.z) }
}

impl<N: Scalar> Delta<N> {
    /// Operation this delta requests.
    pub open spec fn kind_spec(self) -> Kind {
        match self {
            Delta::Frame => Kind::Frame,
            Delta::First { .. } => Kind::First,
            Delta::Track { .. } => Kind::Track,
            Delta::Orbit { .. } => Kind::Orbit,
            Delta::Slide { .. } => Kind::Slide,
            Delta::Scale { .. } => Kind::Scale,
        }
    }

    /// Operation this delta requests.
    #[verifier::when_used_as_spec(kind_spec)]
    pub fn kind(self) -> (kind: Kind)
        ensures
            kind == self.kind_spec(),
    {
        match self {
            Delta::Frame => Kind::Frame,
            Delta::First { .. } => Kind::First,
            Delta::Track { .. } => Kind::Track,
            Delta::Orbit { .. } => Kind::Orbit,
            Delta::Slide { .. } => Kind::Slide,
            Delta::Scale { .. } => Kind::Scale,
        }
    }

    /// `moved` is the frame that the requested operation makes of `frame`: the frame itself
    /// for the identity, [`Frame::look_around()`] for first person view, [`Frame::set_target()`]
    /// with the target slid by the vector for tracking, [`Frame::local_orbit_around()`] for
    /// orbiting, [`Frame::local_slide()`] for sliding and [`Frame::local_scale_around()`] for
    /// scaling.
    pub open spec fn is_transform(self, frame: Frame<N>, moved: Frame<N>) -> bool {
        match self {
            Delta::Frame => moved == frame,
            Delta::First { pitch, yaw, yaw_axis } => frame.is_look_around(
                pitch,
                yaw,
                yaw_axis,
                moved,
            ),
            Delta::Track { vec } => exists|target: Vec3<N>|
                op::vec_add(frame.pos, vec, target) && frame.is_set_target(target, moved),
            Delta::Orbit { rot, pos } => frame.is_local_orbit_around(rot, pos, moved),
            Delta::Slide { vec } => frame.is_local_slide(vec, moved),
            Delta::Scale { rat, pos } => frame.is_local_scale_around(rat, pos, moved),
        }
    }

    /// Both request the same operation, around the same yaw axis or pivot where it has one.
    pub open spec fn akin(self, other: Self) -> bool {
        match (self, other) {
            (Delta::Frame, Delta::Frame) => true,
            (Delta::First { yaw_axis: a, .. }, Delta::First { yaw_axis: b, .. }) => a == b,
            (Delta::Track { .. }, Delta::Track { .. }) => true,
            (Delta::Orbit { pos: a, .. }, Delta::Orbit { pos: b, .. }) => a == b,
            (Delta::Slide { .. }, Delta::Slide { .. }) => true,
            (Delta::Scale { pos: a, .. }, Delta::Scale { pos: b, .. }) => a == b,
            _ => false,
        }
    }

    /// `rest` requests the same operation as this delta, around the same yaw axis or pivot,
    /// with every parameter at rest: angles and vectors are zero, the rotation is the
    /// identity, and the scale ratio is one.
    pub open spec fn is_rest(self, rest: Self) -> bool {
        self.akin(rest) && match rest {
            Delta::Frame => true,
            Delta::First { pitch, yaw, .. } => op::zero(pitch) && op::zero(yaw),
            Delta::Track { vec } => is_origin(vec),
            Delta::Orbit { rot, .. } => op::rot_identity(rot),
            Delta::Slide { vec } => is_origin(vec),
            Delta::Scale { rat, .. } => op::one(rat),
        }
    }

    /// `undo` requests the same operation with negated angles and vectors, the inverse
    /// rotation, or the ratio `1 + 1 - rat`, around the same axis or pivot.
    pub open spec fn is_inverse(self, undo: Self) -> bool {
        match self {
            Delta::Frame => undo is Frame,
            Delta::First { pitch, yaw, yaw_axis } => {
                &&& undo matches Delta::First { pitch: back, yaw: aside, yaw_axis: axis }
                &&& op::negate(pitch, back)
                &&& op::negate(yaw, aside)
                &&& axis == yaw_axis
            },
            Delta::Track { vec } => undo matches Delta::Track { vec: back } && op::vec_neg(
                vec,
                back,
            ),
            Delta::Orbit { rot, pos } => {
                &&& undo matches Delta::Orbit { rot: back, pos: pivot }
                &&& op::rot_inverse(rot, back)
                &&& pivot == pos
            },
            Delta::Slide { vec } => undo matches Delta::Slide { vec: back } && op::vec_neg(
                vec,
                back,
            ),
            Delta::Scale { rat, pos } => {
                &&& undo matches Delta::Scale { rat: back, pos: pivot }
                &&& pivot == pos
                &&& exists|one: N, two: N|
                    op::one(one) && op::plus(one, one, two) && op::minus(two, rat, back)
            },
        }
    }

    /// `part` requests the same operation with angles and vectors scaled by `t`, the
    /// rotation raised to the power `t`, or the ratio `(rat - 1) * t + 1`, around the same
    /// axis or pivot.
    pub open spec fn is_lerp_slerp(self, t: N, part: Self) -> bool {
        match self {
            Delta::Frame => part is Frame,
            Delta::First { pitch, yaw, yaw_axis } => {
                &&& part matches Delta::First { pitch: up, yaw: aside, yaw_axis: axis }
                &&& op::times(pitch, t, up)
                &&& op::times(yaw, t, aside)
                &&& axis == yaw_axis
            },
            Delta::Track { vec } => part matches Delta::Track { vec: step } && op::vec_scale(
                vec,
                t,
                step,
            ),
            Delta::Orbit { rot, pos } => {
                &&& part matches Delta::Orbit { rot: turn, pos: pivot }
                &&& op::rot_powf(rot, t, turn)
                &&& pivot == pos
            },
            Delta::Slide { vec } => part matches Delta::Slide { vec: step } && op::vec_scale(
                vec,
                t,
                step,
            ),
            Delta::Scale { rat, pos } => {
                &&& part matches Delta::Scale { rat: some, pos: pivot }
                &&& pivot == pos
                &&& exists|one: N, excess: N, scaled: N|
                    op::one(one) && op::minus(rat, one, excess) && op::times(excess, t, scaled)
                        && op::plus(scaled, one, some)
            },
        }
    }

    /// `equal` tells whether both deltas request the same operation with parameters that
    /// compare equal, rotations being compared as rotations.
    pub open spec fn is_same(self, other: Self, equal: bool) -> bool {
        match (self, other) {
            (Delta::Frame, Delta::Frame) => equal,
            (
                Delta::First { pitch, yaw, yaw_axis },
                Delta::First { pitch: other_pitch, yaw: other_yaw, yaw_axis: other_axis },
            ) => exists|up: bool, aside: bool, axis: bool|
                op::same(pitch, other_pitch, up) && op::same(yaw, other_yaw, aside) && is_same_vec(
                    yaw_axis,
                    other_axis,
                    axis,
                ) && equal == (up && aside && axis),
            (Delta::Track { vec }, Delta::Track { vec: other_vec }) => is_same_vec(
                vec,
                other_vec,
                equal,
            ),
            (Delta::Orbit { rot, pos }, Delta::Orbit { rot: other_rot, pos: other_pos }) => exists|
                turn: bool,
                pivot: bool,
            |
                op::rot_same(rot, other_rot, turn) && is_same_vec(pos, other_pos, pivot) && equal
                    == (turn && pivot),
            (Delta::Slide { vec }, Delta::Slide { vec: other_vec }) => is_same_vec(
                vec,
                other_vec,
                equal,
            ),
            (Delta::Scale { rat, pos }, Delta::Scale { rat: other_rat, pos: other_pos }) => exists|
                ratio: bool,
                pivot: bool,
            |
                op::same(rat, other_rat, ratio) && is_same_vec(pos, other_pos, pivot) && equal == (
                ratio && pivot),
            _ => !equal,
        }
    }

    /// `least` is the minimum of both deltas.
    ///
    /// The identity yields to the other operand. Two deltas requesting different operations
    /// are incomparable. Of first person views, each angle is the one of smaller absolute
    /// value, around the yaw axis of `self`. Of vectors, each component is the one of smaller
    /// absolute value. Of orbits, the one of smaller angle wins as a whole, and of scales,
    /// the one whose ratio is closer to one. On a tie, `self` wins.
    pub open spec fn is_minimum(self, other: Self, least: Option<Self>) -> bool {
        match (self, other) {
            (Delta::Frame, _) => least == Some(other),
            (_, Delta::Frame) => least == Some(self),
            (
                Delta::First { pitch, yaw, yaw_axis },
                Delta::First { pitch: other_pitch, yaw: other_yaw, .. },
            ) => {
                &&& least matches Some(Delta::First { pitch: up, yaw: aside, yaw_axis: axis })
                &&& is_smaller(pitch, other_pitch, up)
                &&& is_smaller(yaw, other_yaw, aside)
                &&& axis == yaw_axis
            },
            (Delta::Track { vec }, Delta::Track { vec: other_vec }) => {
                &&& least matches Some(Delta::Track { vec: step })
                &&& is_smaller_vec(vec, other_vec, step)
            },
            (Delta::Orbit { rot, .. }, Delta::Orbit { rot: other_rot, .. }) => exists|
                angle: N,
                other_angle: N,
                less: bool,
            |
                op::rot_angle(rot, angle) && op::rot_angle(other_rot, other_angle) && op::less(
                    other_angle,
                    angle,
                    less,
                ) && least == Some(if less {
                    other
                } else {
                    self
                }),
            (Delta::Slide { vec }, Delta::Slide { vec: other_vec }) => {
                &&& least matches Some(Delta::Slide { vec: step })
                &&& is_smaller_vec(vec, other_vec, step)
            },
            (Delta::Scale { rat, .. }, Delta::Scale { rat: other_rat, .. }) => exists|
                one: N,
                excess: N,
                other_excess: N,
                size: N,
                other_size: N,
                less: bool,
            |
                op::one(one) && op::minus(rat, one, excess) && op::minus(
                    other_rat,
                    one,
                    other_excess,
                ) && op::abs(excess, size) && op::abs(other_excess, other_size) && op::less(
                    other_size,
                    size,
                    less,
                ) && least == Some(if less {
                    other
                } else {
                    self
                }),
            _ => least is None,
        }
    }

    /// Transforms from initial to final frame.
    ///
    /// The identity yields the frame itself.
    pub fn transform(&self, frame: &Frame<N>) -> (moved: Frame<N>)
        ensures
            self.is_transform(*frame, moved),
            *self is Frame ==> moved == *frame,
    {
        let mut moved = *frame;
        match self {
            Delta::Frame => {},
            Delta::First { pitch, yaw, yaw_axis } => moved.look_around(*pitch, *yaw, yaw_axis),
            Delta::Track { vec } => {
                let target = N::vec_add(moved.pos, *vec);
                moved.set_target(target)
            },
            Delta::Orbit { rot, pos } => moved.local_orbit_around(rot, pos),
            Delta::Slide { vec } => moved.local_slide(vec),
            Delta::Scale { rat, pos } => moved.local_scale_around(*rat, pos),
        }
        moved
    }

    /// Inverses delta transform.
    ///
    /// Effectively swaps initial with final frame: angles and vectors are negated, the
    /// rotation is inverted and the scale ratio is reflected about one.
    pub fn inverse(self) -> (undo: Self)
        ensures
            self.is_inverse(undo),
            self.akin(undo),
    {
        match self {
            Delta::Frame => Delta::Frame,
            Delta::First { pitch, yaw, yaw_axis } => Delta::First {
                pitch: pitch.negate(),
                yaw: yaw.negate(),
                yaw_axis,
            },
            Delta::Track { vec } => Delta::Track { vec: N::vec_neg(vec) },
            Delta::Orbit { rot, pos } => Delta::Orbit { rot: N::rot_inverse(rot), pos },
            Delta::Slide { vec } => Delta::Slide { vec: N::vec_neg(vec) },
            Delta::Scale { rat, pos } => {
                let one = N::one();
                let two = one.plus(one);
                let back = two.minus(rat);
                assert(op::one(one) && op::plus(one, one, two) && op::minus(two, rat, back));
                Delta::Scale { rat: back, pos }
            },
        }
    }

    /// Interpolates delta transform to a fraction using linear interpolation for the translation
    /// part, and spherical linear interpolation for the rotation part.
    ///
    /// `t` is the interpolation parameter between 0 and 1.
    pub fn lerp_slerp(&self, t: N) -> (part: Self)
        ensures
            self.is_lerp_slerp(t, part),
            self.akin(part),
    {
        match *self {
            Delta::Frame => Delta::Frame,
            Delta::First { pitch, yaw, yaw_axis } => Delta::First {
                pitch: pitch.times(t),
                yaw: yaw.times(t),
                yaw_axis,
            },
            Delta::Track { vec } => Delta::Track { vec: N::vec_scale(vec, t) },
            Delta::Orbit { rot, pos } => Delta::Orbit { rot: N::rot_powf(rot, t), pos },
            Delta::Slide { vec } => Delta::Slide { vec: N::vec_scale(vec, t) },
            Delta::Scale { rat, pos } => {
                let one = N::one();
                let excess = rat.minus(one);
                let scaled = excess.times(t);
                let some = scaled.plus(one);
                assert(op::one(one) && op::minus(rat, one, excess) && op::times(excess, t, scaled)
                    && op::plus(scaled, one, some));
                Delta::Scale { rat: some, pos }
            },
        }
    }

    /// Whether both deltas request the same operation with parameters that compare equal.
    pub fn same(&self, other: &Self) -> (equal: bool)
        ensures
            self.is_same(*other, equal),
            equal ==> self.kind_spec() == other.kind_spec(),
    {
        match (*self, *other) {
            (Delta::Frame, Delta::Frame) => true,
            (
                Delta::First { pitch, yaw, yaw_axis },
                Delta::First { pitch: other_pitch, yaw: other_yaw, yaw_axis: other_axis },
            ) => {
                let up = pitch.same(other_pitch);
                let aside = yaw.same(other_yaw);
                let axis = same_vec(&yaw_axis, &other_axis);
                assert(op::same(pitch, other_pitch, up) && op::same(yaw, other_yaw, aside));
                up && aside && axis
            },
            (Delta::Track { vec }, Delta::Track { vec: other_vec }) => same_vec(&vec, &other_vec),
            (Delta::Orbit { rot, pos }, Delta::Orbit { rot: other_rot, pos: other_pos }) => {
                let turn = N::rot_same(rot, other_rot);
                let pivot = same_vec(&pos, &other_pos);
                assert(op::rot_same(rot, other_rot, turn));
                turn && pivot
            },
            (Delta::Slide { vec }, Delta::Slide { vec: other_vec }) => same_vec(&vec, &other_vec),
            (Delta::Scale { rat, pos }, Delta::Scale { rat: other_rat, pos: other_pos }) => {
                let ratio = rat.same(other_rat);
                let pivot = same_vec(&pos, &other_pos);
                assert(op::same(rat, other_rat, ratio));
                ratio && pivot
            },
            _ => false,
        }
    }

    /// Combines two deltas into the one of least movement.
    ///
    /// Returns the other operand if one is the identity and `None` if both request different
    /// operations. Of two deltas requesting the same operation the smaller magnitude wins per
    /// component: of angles and vector components the smaller absolute value, of rotations
    /// the smaller angle, of scale ratios the one closer to one. On a tie, `self` wins.
    pub fn minimum(self, other: Self) -> (least: Option<Self>)
        ensures
            self.is_minimum(other, least),
    {
        match (self, other) {
            (Delta::Frame, _) => Some(other),
            (_, Delta::Frame) => Some(self),
            (
                Delta::First { pitch, yaw, yaw_axis },
                Delta::First { pitch: other_pitch, yaw: other_yaw, .. },
            ) => Some(
                Delta::First {
                    pitch: smaller(pitch, other_pitch),
                    yaw: smaller(yaw, other_yaw),
                    yaw_axis,
                },
            ),
            (Delta::Track { vec }, Delta::Track { vec: other_vec }) => Some(
                Delta::Track { vec: smaller_vec(vec, other_vec) },
            ),
            (Delta::Orbit { rot, .. }, Delta::Orbit { rot: other_rot, .. }) => {
                let angle = N::rot_angle(rot);
                let other_angle = N::rot_angle(other_rot);
                let less = other_angle.less(angle);
                assert(op::rot_angle(rot, angle) && op::rot_angle(other_rot, other_angle)
                    && op::less(other_angle, angle, less));
                if less {
                    Some(other)
                } else {
                    Some(self)
                }
            },
            (Delta::Slide { vec }, Delta::Slide { vec: other_vec }) => Some(
                Delta::Slide { vec: smaller_vec(vec, other_vec) },
            ),
            (Delta::Scale { rat, .. }, Delta::Scale { rat: other_rat, .. }) => {
                let one = N::one();
                let excess = rat.minus(one);
                let other_excess = other_rat.minus(one);
                let size = excess.abs();
                let other_size = other_excess.abs();
                let less = other_size.less(size);
                assert(op::one(one) && op::minus(rat, one, excess) && op::minus(
                    other_rat,
                    one,
                    other_excess,
                ) && op::abs(excess, size) && op::abs(other_excess, other_size) && op::less(
                    other_size,
                    size,
                    less,
                ));
                if less {
                    Some(other)
                } else {
                    Some(self)
                }
            },
            _ => None,
        }
    }
}

impl<N: Scalar> Default for Delta<N> {
    fn default() -> (delta: Self)
        ensures
            delta is Frame,
    {
        Delta::Frame
    }
}

impl<N: Copy> Delta<N> {
    /// `delta` requests the same operation with each parameter cast.
    pub open spec fn is_cast<M>(self, delta: Delta<M>) -> bool where N: Cast<M> {
        match self {
            Delta::Frame => delta is Frame,
            Delta::First { pitch, yaw, yaw_axis } => {
                &&& delta matches Delta::First { pitch: up, yaw: aside, yaw_axis: axis }
                &&& is_cast(pitch, up)
                &&& is_cast(yaw, aside)
                &&& is_cast_vec3(yaw_axis, axis)
            },
            Delta::Track { vec } => delta matches Delta::Track { vec: step } && is_cast_vec3(
                vec,
                step,
            ),
            Delta::Orbit { rot, pos } => {
                &&& delta matches Delta::Orbit { rot: turn, pos: pivot }
                &&& is_cast_quat(rot, turn)
                &&& is_cast_vec3(pos, pivot)
            },
            Delta::Slide { vec } => delta matches Delta::Slide { vec: step } && is_cast_vec3(
                vec,
                step,
            ),
            Delta::Scale { rat, pos } => {
                &&& delta matches Delta::Scale { rat: ratio, pos: pivot }
                &&& is_cast(rat, ratio)
                &&& is_cast_vec3(pos, pivot)
            },
        }
    }

    /// Casts components to another type, e.g., between single and double precision.
    pub fn cast<M>(self) -> (delta: Delta<M>) where N: Cast<M>
        ensures
            self.is_cast(delta),
    {
        match self {
            Delta::Frame => Delta::Frame,
            Delta::First { pitch, yaw, yaw_axis } => Delta::First {
                pitch: pitch.cast(),
                yaw: yaw.cast(),
                yaw_axis: cast_vec3(yaw_axis),
            },
            Delta::Track { vec } => Delta::Track { vec: cast_vec3(vec) },
            Delta::Orbit { rot, pos } => Delta::Orbit { rot: cast_quat(rot), pos: cast_vec3(pos) },
            Delta::Slide { vec } => Delta::Slide { vec: cast_vec3(vec) },
            Delta::Scale { rat, pos } => Delta::Scale { rat: rat.cast(), pos: cast_vec3(pos) },
        }
    }
}

/// Scaling by `t` leaves everything as it is: a scalar times `t` is the scalar, a vector
/// scaled by `t` is the vector, a rotation raised to the power `t` is the rotation, and
/// what is left of a scalar after taking one away, times `t`, plus one is the scalar.
pub open spec fn is_neutral<N: Scalar>(t: N) -> bool {
    &&& forall|x: N, r: N| op::times(x, t, r) ==> r == x
    &&& forall|v: Vec3<N>, r: Vec3<N>| op::vec_scale(v, t, r) ==> r == v
    &&& forall|q: Quat<N>, r: Quat<N>| op::rot_powf(q, t, r) ==> r == q
    &&& forall|x: N, one: N, less: N, r: N|
        op::one(one) && op::minus(x, one, less) && op::plus(less, one, r) ==> r == x
}

/// Scaling by `t` leaves nothing: a scalar times `t` is zero, a vector scaled by `t` is
/// the origin, a rotation raised to the power `t` is the identity, and such a zero plus one
/// is one.
pub open spec fn is_null<N: Scalar>(t: N) -> bool {
    &&& forall|x: N, r: N| op::times(x, t, r) ==> op::zero(r)
    &&& forall|v: Vec3<N>, r: Vec3<N>| op::vec_scale(v, t, r) ==> is_origin(r)
    &&& forall|q: Quat<N>, r: Quat<N>| op::rot_powf(q, t, r) ==> op::rot_identity(r)
    &&& forall|x: N, none: N, one: N, r: N|
        op::times(x, t, none) && op::one(one) && op::plus(none, one, r) ==> op::one(r)
}

/// Interpolation endpoint: over a field in which scaling by `t` leaves everything as it
/// is, as scaling by one does over the reals, the fraction `t` of a delta is the delta.
pub proof fn lemma_lerp_slerp_whole<N: Scalar>(delta: Delta<N>, t: N, part: Delta<N>)
    requires
        is_neutral(t),
        delta.is_lerp_slerp(t, part),
    ensures
        part == delta,
{
}

/// Interpolation endpoint: over a field in which scaling by `t` leaves nothing, as scaling
/// by zero does over the reals, the fraction `t` of a delta requests the same operation
/// around the same yaw axis or pivot with every parameter at rest.
pub proof fn lemma_lerp_slerp_none<N: Scalar>(delta: Delta<N>, t: N, part: Delta<N>)
    requires
        is_null(t),
        delta.is_lerp_slerp(t, part),
    ensures
        delta.is_rest(part),
{
}

/// Opposite vectors cancel: rotating the negated vector gives the negated rotated vector,
/// and adding a vector and then its negation gives back what they are added to.
pub open spec fn is_cancelling<N: Scalar>() -> bool {
    &&& forall|rot: Quat<N>, v: Vec3<N>, a: Vec3<N>, n: Vec3<N>, b: Vec3<N>| #![trigger op::rotate(rot, v, a), op::vec_neg(v, n), op::rotate(rot, n, b)]
        op::rotate(rot, v, a) && op::vec_neg(v, n) && op::rotate(rot, n, b) ==> op::vec_neg(a, b)
    &&& forall|p: Vec3<N>, a: Vec3<N>, s: Vec3<N>, b: Vec3<N>, r: Vec3<N>| #![trigger op::vec_add(p, a, s), op::vec_neg(a, b), op::vec_add(s, b, r)]
        op::vec_add(p, a, s) && op::vec_neg(a, b) && op::vec_add(s, b, r) ==> r == p
}

/// Invertibility of sliding: over a field in which opposite vectors cancel, the inverse of
/// a slide takes the frame that the slide makes of a frame back to that frame.
pub proof fn lemma_slide_inverse_undoes<N: Scalar>(
    delta: Delta<N>,
    undo: Delta<N>,
    frame: Frame<N>,
    moved: Frame<N>,
    back: Frame<N>,
)
    requires
        is_cancelling::<N>(),
        delta is Slide,
        delta.is_inverse(undo),
        delta.is_transform(frame, moved),
        undo.is_transform(moved, back),
    ensures
        back == frame,
{
}

/// Over a field whose operations are functions, a delta makes one frame of a frame.
pub proof fn lemma_transform_is_function<N: Scalar>(
    delta: Delta<N>,
    frame: Frame<N>,
    one: Frame<N>,
    other: Frame<N>,
)
    requires
        op::is_function::<N>(),
        delta.is_transform(frame, one),
        delta.is_transform(frame, other),
    ensures
        one == other,
{
}

} // verus!
