//! Touch gestures inducing slide, orbit, scale, and focus.
//!
//! A tap is a gesture whose fingers hardly move between touching down and lifting off. It is
//! recognized by counting the moves of all fingers: a tap is cancelled as soon as there are
//! more moves than fingers plus a number of moves allowed per finger for debouncing.
use vstd::prelude::*;
use crate::field::{cast_vec2, is_cast, is_cast_vec2, Cast, Scalar, Vec2};
use crate::op;

verus! {

/// Potential tap of a touch gesture.
#[derive(Clone, Copy, Debug, PartialEq, Eq, Structural)]
pub struct Tap {
    /// Largest number of fingers seen while the tap was possible, `None` without such a tap.
    pub fingers: Option<usize>,
    /// Number of total finger moves per potential tap, `usize::MAX` once the tap is cancelled.
    pub moves: usize,
}

/// What a finger move means for the gesture.
#[derive(Clone, Copy, Debug, PartialEq, Eq, Structural)]
pub struct Move {
    /// Whether the centroid of this move is the position of the potential tap.
    pub tapping: bool,
    /// Whether the move induces a gesture, as opposed to being inhibited while debouncing.
    pub induced: bool,
}

/// Larger of the number of fingers of the potential tap, one without such a tap, and `num`.
pub open spec fn most(tap: Tap, num: usize) -> nat {
    let seen: usize = match tap.fingers {
        Some(fingers) => fingers,
        None => 1,
    };
    if seen >= num {
        seen as nat
    } else {
        num as nat
    }
}

/// Whether a move with `num` fingers down cancels the potential tap: there have been as many
/// moves as fingers plus `mvs` moves for each finger already.
pub open spec fn cancels(tap: Tap, num: usize, mvs: usize) -> bool {
    tap.moves >= most(tap, num) + mvs * most(tap, num)
}

/// Potential tap after a move with `num` fingers down and `mvs` moves allowed per finger.
pub open spec fn moved(tap: Tap, num: usize, mvs: usize) -> Tap {
    if cancels(tap, num, mvs) {
        Tap { fingers: None, moves: usize::MAX }
    } else {
        Tap {
            fingers: if num >= most(tap, num) {
                Some(num)
            } else {
                tap.fingers
            },
            moves: (tap.moves + 1) as usize,
        }
    }
}

impl Tap {
    /// No potential tap and no moves.
    pub fn new() -> (tap: Self)
        ensures
            tap == (Tap { fingers: None, moves: 0 }),
    {
        Tap { fingers: None, moves: 0 }
    }

    /// Counts a move of a finger to a new position with `num` fingers down.
    ///
    /// `mvs` is the number of finger moves per finger for debouncing the tap gesture. The
    /// potential tap is cancelled for good if there have been as many moves as fingers plus
    /// `mvs` for each finger already. Otherwise the move is counted, and the centroid of
    /// this move becomes the position of the tap unless fingers have been lifted. The move
    /// induces a gesture if at least `mvs` moves per finger have been counted by now.
    pub fn count(&mut self, num: usize, mvs: usize) -> (outcome: Move)
        requires
            most(*old(self), num) + mvs * most(*old(self), num) <= usize::MAX,
        ensures
            *final(self) == moved(*old(self), num, mvs),
            outcome.tapping == (!cancels(*old(self), num, mvs) && num >= most(*old(self), num)),
            outcome.induced == (final(self).moves >= mvs * most(*old(self), num)),
    {
        let seen: usize = match self.fingers {
            Some(fingers) => fingers,
            None => 1,
        };
        let max: usize = if seen >= num {
            seen
        } else {
            num
        };
        assert(max == most(*old(self), num));
        assert(mvs * max <= max + mvs * max) by (nonlinear_arith)
            requires
                mvs >= 0,
                max >= 0,
        ;
        let allowed: usize = mvs * max;
        let mut tapping = false;
        if self.moves >= max + allowed {
            // Make sure to not resume cancelled tap when fingers are discarded.
            self.moves = usize::MAX;
            self.fingers = None;
        } else {
            self.moves += 1;
            if num >= max {
                self.fingers = Some(num);
                tapping = true;
            }
        }
        Move { tapping, induced: self.moves >= allowed }
    }

    /// Counts a finger as lifted and returns the number of fingers of the tap that ends.
    ///
    /// `left` is the number of fingers still down. The gesture ends when no finger is left:
    /// then the state is reset and the potential tap is returned.
    pub fn lift(&mut self, left: usize) -> (fingers: Option<usize>)
        ensures
            left == 0 ==> *final(self) == (Tap { fingers: None, moves: 0 }) && fingers == old(
                self,
            ).fingers,
            left != 0 ==> *final(self) == *old(self) && fingers is None,
    {
        if left == 0 {
            let tap = self.fingers;
            self.fingers = None;
            self.moves = 0;
            tap
        } else {
            None
        }
    }
}

/// A cancelled tap stays cancelled whatever moves follow.
pub proof fn lemma_cancelled_stays_cancelled(tap: Tap, num: usize, mvs: usize)
    requires
        tap.moves == usize::MAX,
        most(tap, num) + mvs * most(tap, num) <= usize::MAX,
    ensures
        moved(tap, num, mvs) == (Tap { fingers: None, moves: usize::MAX }),
{
}

/// Fingers that are down, in the order in which the collection holds them.
#[verifier::external_body]
pub struct Fingers {
    map: heapless::LinearMap<u64, (), 10>,
}

/// Fingers of a collection in the order in which it holds them.
pub uninterp spec fn held(fingers: Fingers) -> Seq<u64>;

/// Whether `at` is the first place at which `ids` holds `id`.
pub open spec fn is_first(ids: Seq<u64>, id: u64, at: int) -> bool {
    &&& 0 <= at < ids.len()
    &&& ids[at] == id
    &&& forall|before: int| 0 <= before < at ==> ids[before] != id
}

/// Sequence without the finger at `at`, whose place the last finger takes.
pub open spec fn swap_removed(ids: Seq<u64>, at: int) -> Seq<u64> {
    ids.update(at, ids.last()).drop_last()
}

impl Fingers {
    /// `heapless::LinearMap::new`: a collection that holds no finger.
    #[verifier::external_body]
    pub(crate) fn new() -> (fingers: Self)
        ensures
            held(fingers) == Seq::<u64>::empty(),
    {
        Fingers { map: heapless::LinearMap::new() }
    }

    /// `heapless::LinearMap::len`: the number of fingers held.
    #[verifier::external_body]
    pub(crate) fn len(&self) -> (len: usize)
        ensures
            len == held(*self).len(),
    {
        self.map.len()
    }

    /// `heapless::LinearMap::keys`: the fingers held, in the order of the collection.
    #[verifier::external_body]
    pub(crate) fn ids(&self) -> (ids: Vec<u64>)
        ensures
            ids@ == held(*self),
    {
        self.map.keys().copied().collect()
    }

    /// `heapless::LinearMap::insert`: a finger that is held stays where it is and `Ok(Some(()))`
    /// is returned, another one is appended and `Ok(None)` is returned unless ten fingers are
    /// held already, in which case nothing changes and the result is an error.
    #[verifier::external_body]
    pub(crate) fn insert(&mut self, id: u64) -> (known: Result<Option<()>, ()>)
        ensures
            held(*old(self)).contains(id) ==> (known matches Ok(Some(_)) && held(*final(self))
                == held(*old(self))),
            !held(*old(self)).contains(id) && held(*old(self)).len() < 10 ==> (known matches Ok(
                None,
            ) && held(*final(self)) == held(*old(self)).push(id)),
            !held(*old(self)).contains(id) && held(*old(self)).len() >= 10 ==> (known is Err
                && held(*final(self)) == held(*old(self))),
    {
        self.map.insert(id, ()).map_err(|_| ())
    }

    /// `heapless::LinearMap::remove`: a finger that is held is removed from the first place
    /// that holds it, the last finger takes that place, and `Some(())` is returned; without
    /// such a finger nothing changes and `None` is returned.
    #[verifier::external_body]
    pub(crate) fn remove(&mut self, id: u64) -> (known: Option<()>)
        ensures
            (known is Some) == held(*old(self)).contains(id),
            known is None ==> held(*final(self)) == held(*old(self)),
            forall|at: int| #[trigger]
                is_first(held(*old(self)), id, at) ==> held(*final(self)) == swap_removed(
                    held(*old(self)),
                    at,
                ) && known is Some,
    {
        self.map.remove(&id)
    }
}

/// First place at which `ids` holds `id`, if any.
pub fn index_of(ids: &Vec<u64>, id: u64) -> (found: Option<usize>)
    ensures
        match found {
            Some(at) => is_first(ids@, id, at as int),
            None => !ids@.contains(id),
        },
{
    let mut at: usize = 0;
    while at < ids.len()
        invariant
            at <= ids.len(),
            forall|before: int| 0 <= before < at ==> ids@[before] != id,
        decreases ids.len() - at,
    {
        if ids[at] == id {
            return Some(at);
        }
        at += 1;
    }
    None
}

/// Vector between two fingers as unit ray and length.
#[derive(Clone, Copy, Debug)]
pub struct Span<N> {
    /// Unit ray pointing from first to second finger.
    pub ray: Vec2<N>,
    /// Distance between both fingers.
    pub len: N,
}

/// Touch gestures inducing slide, orbit, scale, and focus.
///
/// All methods except [`Self::fingers()`] must be invoked on matching events.
pub struct Touch<N> {
    /// Fingers in insertion order.
    ids: Fingers,
    /// Finger positions, each at the place of its finger.
    pos: Vec<Vec2<N>>,
    /// Cached normalization of previous two-finger vector.
    vec: Option<Span<N>>,
    /// Number of fingers and of total finger moves of potential finger tap gesture.
    tap: Tap,
    /// Centroid position of potential finger tap gesture.
    spot: Option<Vec2<N>>,
}

/// What a touch handler holds.
pub struct Hold<N> {
    /// Fingers that are down, in the order in which they are held.
    pub ids: Seq<u64>,
    /// Finger positions, each at the place of its finger.
    pub spots: Seq<Vec2<N>>,
    /// Previous two-finger vector.
    pub span: Option<Span<N>>,
    /// Potential tap of the gesture.
    pub tap: Tap,
    /// Centroid position of the potential tap.
    pub spot: Option<Vec2<N>>,
}

/// First place at which `ids` holds `id`.
pub open spec fn place(ids: Seq<u64>, id: u64) -> int {
    choose|at: int| is_first(ids, id, at)
}

/// The first place of a finger is the place that [`place`] names.
pub proof fn lemma_place(ids: Seq<u64>, id: u64, at: int)
    requires
        is_first(ids, id, at),
    ensures
        place(ids, id) == at,
{
    let other = place(ids, id);
    assert(is_first(ids, id, other));
    if other < at {
        assert(ids[other] != id);
    }
    if at < other {
        assert(ids[at] != id);
    }
}

/// `total` is `part + spot` in each component.
pub open spec fn is_added<N: Scalar>(part: Vec2<N>, spot: Vec2<N>, total: Vec2<N>) -> bool {
    op::plus(part.x, spot.x, total.x) && op::plus(part.y, spot.y, total.y)
}

/// `total` is the sum of the positions, added one by one to zero.
pub open spec fn is_total<N: Scalar>(spots: Seq<Vec2<N>>, total: Vec2<N>) -> bool
    decreases spots.len(),
{
    if spots.len() == 0 {
        op::zero(total.x) && op::zero(total.y)
    } else {
        exists|part: Vec2<N>| #[trigger]
            is_added(part, spots.last(), total) && is_total(spots.drop_last(), part)
    }
}

/// `centroid` is the sum of all positions over their number.
pub open spec fn is_centroid<N: Scalar>(spots: Seq<Vec2<N>>, centroid: Vec2<N>) -> bool {
    exists|total: Vec2<N>, num: N|
        is_total(spots, total) && op::from_count(spots.len() as usize, num) && op::over(
            total.x,
            num,
            centroid.x,
        ) && op::over(total.y, num, centroid.y)
}

/// `span` is the normalized vector from the first to the second position with its length.
pub open spec fn is_span<N: Scalar>(spots: Seq<Vec2<N>>, span: Span<N>) -> bool {
    exists|vec: Vec2<N>|
        op::flat_sub(spots[1], spots[0], vec) && op::flat_normalize(vec, (span.ray, span.len))
}

/// With other than two fingers, roll angle and scale ratio are zero and one and the
/// previous two-finger vector stays. With two fingers, their vector becomes the previous one,
/// and from a former one to this one the roll angle is `atan2(old ⟂ new, old · new)` and the
/// scale ratio the former length over this one.
pub open spec fn is_pinch<N: Scalar>(
    before: Option<Span<N>>,
    spots: Seq<Vec2<N>>,
    after: Option<Span<N>>,
    rot: N,
    rat: N,
) -> bool {
    if spots.len() == 2 {
        exists|span: Span<N>|
            is_span(spots, span) && after == Some(span) && match before {
                Some(old) => exists|perp: N, dot: N|
                    op::flat_perp(old.ray, span.ray, perp) && op::flat_dot(old.ray, span.ray, dot)
                        && op::atan2(perp, dot, rot) && op::over(old.len, span.len, rat),
                None => op::zero(rot) && op::one(rat),
            }
    } else {
        after == before && op::zero(rot) && op::one(rat)
    }
}

/// `still` tells whether the finger is down at a position that compares equal to `pos`.
pub open spec fn is_still<N: Scalar>(before: Hold<N>, fid: u64, pos: Vec2<N>, still: bool) -> bool {
    if before.ids.contains(fid) {
        exists|x: bool, y: bool|
            op::same(before.spots[place(before.ids, fid)].x, pos.x, x) && op::same(
                before.spots[place(before.ids, fid)].y,
                pos.y,
                y,
            ) && still == (x && y)
    } else {
        !still
    }
}

/// `after` holds the finger at the given position: at its place if it was down, else in
/// the last place.
pub open spec fn is_put<N>(before: Hold<N>, fid: u64, pos: Vec2<N>, after: Hold<N>) -> bool {
    if before.ids.contains(fid) {
        after.ids == before.ids && after.spots == before.spots.update(
            place(before.ids, fid),
            pos,
        )
    } else {
        after.ids == before.ids.push(fid) && after.spots == before.spots.push(pos)
    }
}

/// What a finger position makes of the gesture.
///
/// The finger is put to its position. If that leaves the finger still, nothing else
/// changes and there is no gesture. Else the move is counted for the potential tap, whose
/// position becomes the centroid if the fingers are as many as ever, and is forgotten if
/// the tap is cancelled. If enough moves have been counted, the gesture is the number of
/// fingers, the centroid, and roll angle and scale ratio of the pinch.
pub open spec fn is_compute<N: Scalar>(
    before: Hold<N>,
    fid: u64,
    pos: Vec2<N>,
    mvs: usize,
    after: Hold<N>,
    gesture: Option<(usize, Vec2<N>, N, N)>,
) -> bool {
    is_put(before, fid, pos, after) && exists|still: bool|
        is_still(before, fid, pos, still) && if still {
            gesture is None && after.tap == before.tap && after.span == before.span && after.spot
                == before.spot
        } else {
            is_counted(before, mvs, after, gesture)
        }
}

/// The move is counted for the potential tap, whose position becomes the centroid if the
/// fingers are as many as ever, and is forgotten if the tap is cancelled; the gesture is
/// induced with that centroid.
pub open spec fn is_counted<N: Scalar>(
    before: Hold<N>,
    mvs: usize,
    after: Hold<N>,
    gesture: Option<(usize, Vec2<N>, N, N)>,
) -> bool {
    let num = after.ids.len() as usize;
    after.tap == moved(before.tap, num, mvs) && exists|centroid: Vec2<N>|
        is_centroid(after.spots, centroid) && after.spot == (if !cancels(before.tap, num, mvs)
            && num >= most(before.tap, num) {
            Some(centroid)
        } else if after.tap.fingers is None {
            None
        } else {
            before.spot
        }) && is_induced(before, mvs, after, centroid, gesture)
}

/// If as many moves as `mvs` per finger have been counted, the gesture is the number of
/// fingers, the centroid, and roll angle and scale ratio of the pinch; else there is none
/// and the previous two-finger vector stays.
pub open spec fn is_induced<N: Scalar>(
    before: Hold<N>,
    mvs: usize,
    after: Hold<N>,
    centroid: Vec2<N>,
    gesture: Option<(usize, Vec2<N>, N, N)>,
) -> bool {
    let num = after.ids.len() as usize;
    if after.tap.moves >= mvs * most(before.tap, num) {
        exists|rot: N, rat: N|
            is_pinch(before.span, after.spots, after.span, rot, rat) && gesture == Some(
                (num, centroid, rot, rat),
            )
    } else {
        gesture is None && after.span == before.span
    }
}

/// Lifting a finger that is not down.
#[derive(Clone, Copy, Debug, PartialEq, Eq, Structural)]
pub struct UnknownFinger {
    /// Finger that was to be lifted.
    pub fid: u64,
}

/// What lifting a finger that is down makes of the gesture.
///
/// The previous two-finger vector is forgotten. If the finger is the last one, no finger is
/// down afterwards, the tap state is reset, and the potential tap is returned with its
/// position. Else the last finger takes the place of the lifted one and nothing is returned.
pub open spec fn is_discard<N>(
    before: Hold<N>,
    fid: u64,
    after: Hold<N>,
    tap: Option<(usize, Vec2<N>)>,
) -> bool {
    before.ids.contains(fid) && after.span is None && if before.ids.len() == 1 {
        after.ids == Seq::<u64>::empty() && after.spots == Seq::<Vec2<N>>::empty() && after.tap
            == (Tap { fingers: None, moves: 0 }) && after.spot is None && tap == (
        match (before.tap.fingers, before.spot) {
            (Some(fingers), Some(spot)) => Some((fingers, spot)),
            _ => None,
        })
    } else {
        after.ids == swap_removed(before.ids, place(before.ids, fid)) && after.spots
            == before.spots.update(place(before.ids, fid), before.spots.last()).drop_last()
            && after.tap == before.tap && after.spot == before.spot && tap is None
    }
}

impl<N: Scalar> View for Touch<N> {
    type V = Hold<N>;

    closed spec fn view(&self) -> Hold<N> {
        Hold {
            ids: held(self.ids),
            spots: self.pos@,
            span: self.vec,
            tap: self.tap,
            spot: self.spot,
        }
    }
}

impl<N: Scalar> Touch<N> {
    /// Each finger has a position, at most ten fingers are down, and the potential tap has a
    /// position and has seen no more fingers than that.
    pub closed spec fn wf(&self) -> bool {
        &&& self.pos@.len() == held(self.ids).len()
        &&& held(self.ids).len() <= 10
        &&& self.spot is Some <==> self.tap.fingers is Some
        &&& self.tap.fingers matches Some(fingers) ==> fingers <= 10
    }

    /// A handler in order holds as many positions as fingers, and at most ten.
    pub proof fn lemma_wf(&self)
        requires
            self.wf(),
        ensures
            self@.spots.len() == self@.ids.len(),
            self@.ids.len() <= 10,
            self@.spot is Some <==> self@.tap.fingers is Some,
    {
    }

    /// No finger is down and no tap is possible yet.
    pub fn new() -> (touch: Self)
        ensures
            touch.wf(),
            touch@ == (Hold {
                ids: Seq::<u64>::empty(),
                spots: Seq::<Vec2<N>>::empty(),
                span: None,
                tap: Tap { fingers: None, moves: 0 },
                spot: None,
            }),
    {
        Touch { ids: Fingers::new(), pos: Vec::new(), vec: None, tap: Tap::new(), spot: None }
    }

    /// Centroid of the finger positions.
    fn centroid(&self) -> (centroid: Vec2<N>)
        ensures
            is_centroid(self.pos@, centroid),
    {
        let mut total = Vec2 { x: N::zero(), y: N::zero() };
        let mut at: usize = 0;
        while at < self.pos.len()
            invariant
                at <= self.pos.len(),
                is_total(self.pos@.take(at as int), total),
            decreases self.pos.len() - at,
        {
            let pos = self.pos[at];
            let part = total;
            total = Vec2 { x: part.x.plus(pos.x), y: part.y.plus(pos.y) };
            at += 1;
            proof {
                let seen = self.pos@.take(at as int);
                assert(seen.drop_last() =~= self.pos@.take(at - 1));
                assert(seen.last() == pos);
                assert(is_added(part, seen.last(), total) && is_total(seen.drop_last(), part));
            }
        }
        assert(self.pos@.take(at as int) =~= self.pos@);
        let num = N::from_count(self.pos.len());
        let centroid = Vec2 { x: total.x.over(num), y: total.y.over(num) };
        assert(is_total(self.pos@, total) && op::from_count(self.pos@.len() as usize, num)
            && op::over(total.x, num, centroid.x) && op::over(total.y, num, centroid.y));
        centroid
    }

    /// Roll angle and scale ratio of the pinch, caching the two-finger vector.
    fn pinch(&mut self) -> (turn: (N, N))
        requires
            old(self).wf(),
        ensures
            final(self).wf(),
            is_pinch(old(self)@.span, old(self)@.spots, final(self)@.span, turn.0, turn.1),
            *final(self) == (Touch { vec: final(self).vec, ..*old(self) }),
    {
        // Identity roll angle and scale ratio.
        let mut rot = N::zero();
        let mut rat = N::one();
        // Roll and scale only with two-finger gesture, otherwise orbit or slide via centroid.
        if self.pos.len() == 2 {
            // Ray and its length pointing from first to second finger.
            let vec = N::flat_sub(self.pos[1], self.pos[0]);
            let (ray, len) = N::flat_normalize(vec);
            let span = Span { ray, len };
            assert(is_span(self.pos@, span)) by {
                assert(op::flat_sub(self.pos@[1], self.pos@[0], vec) && op::flat_normalize(
                    vec,
                    (span.ray, span.len),
                ));
            }
            // Get old and replace with new vector.
            let old = self.vec;
            self.vec = Some(span);
            if let Some(old) = old {
                // Roll angle in opposite direction at centroid.
                let perp = N::flat_perp(old.ray, ray);
                let dot = N::flat_dot(old.ray, ray);
                rot = perp.atan2(dot);
                // Scale ratio at centroid.
                rat = old.len.over(len);
                assert(op::flat_perp(old.ray, span.ray, perp) && op::flat_dot(
                    old.ray,
                    span.ray,
                    dot,
                ) && op::atan2(perp, dot, rot) && op::over(old.len, span.len, rat));
            }
        }
        (rot, rat)
    }

    /// Computes centroid position, roll angle, and scale ratio from finger gestures.
    ///
    /// Parameters are:
    ///
    ///   * `fid` as finger ID,
    ///   * `pos` as current cursor/finger position in screen space,
    ///   * `mvs` as number of finger moves for debouncing potential finger tap gesture with zero
    ///     resulting in no delay of non-tap gestures while tap gesture can still be recognized. Use
    ///     zero unless tap gestures are hardly recognized.
    ///
    /// Returns number of fingers, centroid position, roll angle, and scale ratio in screen space in
    /// the order mentioned or `None` when the position of the finger has not changed or when
    /// debouncing tap gesture with non-vanishing `mvs`. See [`Self::discard()`] for tap gesture
    /// result.
    ///
    /// No more than ten fingers can be down.
    pub fn compute(&mut self, fid: u64, pos: Vec2<N>, mvs: usize) -> (gesture: Option<
        (usize, Vec2<N>, N, N),
    >)
        requires
            old(self).wf(),
            old(self)@.ids.contains(fid) || old(self)@.ids.len() < 10,
            10 + mvs * 10 <= usize::MAX,
        ensures
            final(self).wf(),
            is_compute(old(self)@, fid, pos, mvs, final(self)@, gesture),
    {
        // Insert or update finger position and ignore events of unchanged finger position.
        let ids = self.ids.ids();
        let at = index_of(&ids, fid);
        let _known = self.ids.insert(fid);
        let mut still = false;
        match at {
            Some(at) => {
                proof {
                    lemma_place(old(self)@.ids, fid, at as int);
                }
                let old_pos = self.pos[at];
                self.pos.set(at, pos);
                let x = old_pos.x.same(pos.x);
                let y = old_pos.y.same(pos.y);
                assert(op::same(old(self)@.spots[at as int].x, pos.x, x) && op::same(
                    old(self)@.spots[at as int].y,
                    pos.y,
                    y,
                ));
                still = x && y;
            },
            None => {
                self.pos.push(pos);
            },
        }
        assert(is_put(old(self)@, fid, pos, self@));
        assert(is_still(old(self)@, fid, pos, still));
        if still {
            return None;
        }
        // Current number of fingers.
        let num = self.ids.len();
        // Centroid position.
        let centroid = self.centroid();
        proof {
            let top = most(self.tap, num);
            assert(top <= 10);
            assert(top + mvs * top <= 10 + mvs * 10) by (nonlinear_arith)
                requires
                    0 <= top <= 10,
                    0 <= mvs,
            ;
        }
        // Cancel potential tap if more moves than number of finger starts plus optional number
        // of moves per finger for debouncing tap gesture, else count total moves per potential
        // tap and insert or update potential tap as long as fingers are not discarded.
        let outcome = self.tap.count(num, mvs);
        if outcome.tapping {
            self.spot = Some(centroid);
        } else if self.tap.fingers.is_none() {
            self.spot = None;
        }
        // Inhibit finger gestures for given number of moves per finger. No delay with zero `mvs`.
        let gesture = if outcome.induced {
            let (rot, rat) = self.pinch();
            assert(is_pinch(old(self)@.span, self@.spots, self@.span, rot, rat));
            Some((num, centroid, rot, rat))
        } else {
            None
        };
        assert(is_induced(old(self)@, mvs, self@, centroid, gesture));
        assert(is_counted(old(self)@, mvs, self@, gesture)) by {
            assert(is_centroid(self@.spots, centroid));
        }
        gesture
    }

    /// Removes finger position and returns number of fingers and centroid position of tap gesture.
    ///
    /// Returns `Ok(None)` as long as there are finger positions or no tap gesture has been
    /// recognized.
    ///
    /// Lifting a finger that is not down is an error and leaves the handler as it is.
    pub fn discard(&mut self, fid: u64) -> (tap: Result<Option<(usize, Vec2<N>)>, UnknownFinger>)
        requires
            old(self).wf(),
        ensures
            final(self).wf(),
            (tap is Err) == !old(self)@.ids.contains(fid),
            tap matches Err(error) ==> error == (UnknownFinger { fid }) && final(self)@ == old(
                self,
            )@,
            tap matches Ok(ended) ==> is_discard(old(self)@, fid, final(self)@, ended),
    {
        let ids = self.ids.ids();
        match index_of(&ids, fid) {
            None => Err(UnknownFinger { fid }),
            Some(at) => {
                proof {
                    lemma_place(old(self)@.ids, fid, at as int);
                }
                let _known = self.ids.remove(fid);
                self.pos.swap_remove(at);
                self.vec = None;
                let left = self.ids.len();
                let spot = self.spot;
                let fingers = self.tap.lift(left);
                if left == 0 {
                    self.spot = None;
                    assert(self.pos@ =~= Seq::<Vec2<N>>::empty());
                    assert(held(self.ids) =~= Seq::<u64>::empty());
                }
                match (fingers, spot) {
                    (Some(fingers), Some(spot)) => Ok(Some((fingers, spot))),
                    _ => Ok(None),
                }
            },
        }
    }

    /// Number of fingers.
    pub fn fingers(&self) -> (num: usize)
        ensures
            num == self@.ids.len(),
    {
        self.ids.len()
    }

    /// Whether the finger is down.
    pub fn has(&self, fid: u64) -> (known: bool)
        ensures
            known == self@.ids.contains(fid),
    {
        let ids = self.ids.ids();
        index_of(&ids, fid).is_some()
    }
}

impl<N: Scalar> Default for Touch<N> {
    /// No finger is down and no tap is possible yet.
    fn default() -> (touch: Self)
        ensures
            touch.wf(),
            touch@ == (Hold {
                ids: Seq::<u64>::empty(),
                spots: Seq::<Vec2<N>>::empty(),
                span: None,
                tap: Tap { fingers: None, moves: 0 },
                spot: None,
            }),
    {
        Touch::new()
    }
}

/// `r` holds the same fingers and the same potential tap with each position cast.
pub open spec fn is_cast_hold<N: Cast<M>, M>(a: Hold<N>, r: Hold<M>) -> bool {
    &&& r.ids == a.ids
    &&& r.tap == a.tap
    &&& r.spots.len() == a.spots.len()
    &&& forall|at: int| 0 <= at < a.spots.len() ==> is_cast_vec2(a.spots[at], #[trigger] r.spots[at])
    &&& match a.span {
        Some(span) => r.span matches Some(cast) && is_cast_vec2(span.ray, cast.ray) && is_cast(
            span.len,
            cast.len,
        ),
        None => r.span is None,
    }
    &&& match a.spot {
        Some(spot) => r.spot matches Some(cast) && is_cast_vec2(spot, cast),
        None => r.spot is None,
    }
}

impl<N: Scalar> Touch<N> {
    /// Casts components to another type, e.g., between single and double precision.
    pub fn cast<M: Scalar>(self) -> (touch: Touch<M>) where N: Cast<M>
        requires
            self.wf(),
        ensures
            touch.wf(),
            is_cast_hold(self@, touch@),
    {
        let mut pos: Vec<Vec2<M>> = Vec::new();
        let mut at: usize = 0;
        while at < self.pos.len()
            invariant
                at <= self.pos.len(),
                pos@.len() == at,
                forall|seen: int| 0 <= seen < at ==> is_cast_vec2(self.pos@[seen], #[trigger] pos@[seen]),
            decreases self.pos.len() - at,
        {
            pos.push(cast_vec2(self.pos[at]));
            at += 1;
        }
        Touch {
            ids: self.ids,
            pos,
            vec: match self.vec {
                Some(span) => Some(Span { ray: cast_vec2(span.ray), len: span.len.cast() }),
                None => None,
            },
            tap: self.tap,
            spot: match self.spot {
                Some(spot) => Some(cast_vec2(spot)),
                None => None,
            },
        }
    }
}

} // verus!
