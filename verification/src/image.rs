//! Image as projection of scope wrt frame.
use vstd::prelude::*;
use crate::field::{
    cast_iso3, cast_mat4, cast_vec2, is_cast, is_cast_iso3, is_cast_mat4, is_cast_vec2, Cast, Iso3,
    Mat4, Scalar, Vec2, Vec3,
};
use crate::fixed::Fixed;
use crate::frame::{is_origin, origin, Frame};
use crate::op;
use crate::scope::Scope;

verus! {

/// Image as projection of [`Scope`] wrt [`Frame`].
#[derive(Clone, Copy, Debug)]
pub struct Image<N> {
    /// Current position in screen space of hovering input or pointing device.
    pub pos: Vec2<N>,
    /// Maximum position in screen space as screen's width and height.
    pub max: Vec2<N>,
    /// Cached unit per pixel on focus plane to scale/project positions/vectors onto focus plane.
    pub upp: N,
    /// Cached previous frame.
    pub frame: Frame<N>,
    /// Cached previous scope.
    pub scope: Scope<N>,
    /// Cached view isometry from world to camera space coinciding with right-handed look-at space.
    pub view_iso: Iso3<N>,
    /// Cached homogeneous view matrix computed from view isometry.
    pub view_mat: Mat4<N>,
    /// Cached scale-identical orthographic or perspective projection matrix.
    pub proj_mat: Mat4<N>,
    /// Cached transformation.
    pub proj_view_mat: Mat4<N>,
    /// Cached inverse of transformation.
    pub proj_view_inv: Mat4<N>,
    /// Whether to compute transformation. Default is `true`.
    pub compute_mat: bool,
    /// Whether to compute inverse transformation. Default is `true`.
    pub compute_inv: bool,
}

impl<N: Scalar> Image<N> {
    /// `blank` caches frame, scope and screen extents with the position at the origin, the
    /// identity as view isometry, zero as unit per pixel and matrices of zeros, and is to
    /// compute both transformations.
    pub open spec fn is_blank(frame: Frame<N>, scope: Scope<N>, max: Vec2<N>, blank: Self) -> bool {
        blank.max == max && blank.frame == frame && blank.scope == scope && blank.compute_mat
            && blank.compute_inv && op::zero(blank.pos.x) && op::zero(blank.pos.y) && op::zero(
            blank.upp,
        ) && op::rot_identity(blank.view_iso.rot) && is_origin(blank.view_iso.vec) && op::mat_zero(
            blank.view_mat,
        ) && op::mat_zero(blank.proj_mat) && op::mat_zero(blank.proj_view_mat) && op::mat_zero(
            blank.proj_view_inv,
        )
    }

    /// `image` is the blank image with view, projection, transformation and inverse
    /// transformation computed in this order.
    pub open spec fn is_new(frame: Frame<N>, scope: Scope<N>, max: Vec2<N>, image: Self) -> bool {
        exists|blank: Self, viewed: Self, projected: Self, multiplied: Self, done: bool|
            Self::is_blank(frame, scope, max, blank) && blank.is_compute_view(frame, viewed)
                && viewed.is_compute_projection_and_upp(frame.zat, scope, projected)
                && projected.is_compute_transformation(multiplied)
                && multiplied.is_compute_inverse_transformation(image, done)
    }

    /// `after` caches the view of the frame as isometry and as matrix and is the same
    /// otherwise.
    pub open spec fn is_compute_view(self, frame: Frame<N>, after: Self) -> bool {
        after == (Image { view_iso: after.view_iso, view_mat: after.view_mat, ..self })
            && after.view_iso.rot == frame.rot && frame.is_eye(after.view_iso.vec)
            && op::iso_to_homogeneous(after.view_iso, after.view_mat)
    }

    /// `after` caches projection and unit per pixel of the scope on this screen and is the
    /// same otherwise.
    pub open spec fn is_compute_projection_and_upp(self, zat: N, scope: Scope<N>, after: Self) -> bool {
        after == (Image { upp: after.upp, proj_mat: after.proj_mat, ..self })
            && scope.is_projection_and_upp(zat, self.max, after.proj_mat, after.upp)
    }

    /// `after` caches the product of projection and view and is the same otherwise.
    pub open spec fn is_compute_transformation(self, after: Self) -> bool {
        after == (Image { proj_view_mat: after.proj_view_mat, ..self }) && op::mat_mul(
            self.proj_mat,
            self.view_mat,
            after.proj_view_mat,
        )
    }

    /// `after` caches the inverse of the transformation if there is one, which `done` tells,
    /// and is the same otherwise.
    pub open spec fn is_compute_inverse_transformation(self, after: Self, done: bool) -> bool {
        exists|inverse: Option<Mat4<N>>|
            op::mat_try_inverse(self.proj_view_mat, inverse) && done == (inverse is Some) && after
                == (Image {
                proj_view_inv: match inverse {
                    Some(mat) => mat,
                    None => self.proj_view_inv,
                },
                ..self
            })
    }

    /// `after` caches frame and scope. The view is computed if the frame is not the same as
    /// the cached one. The projection is computed then if the distance of the frame does not
    /// compare equal to the cached one or the scope is not the same as the cached one. If
    /// neither changed, nothing is done. Else the transformation is computed if it or its
    /// inverse is asked for, and the inverse is computed if it is asked for, which alone can
    /// fail.
    pub open spec fn is_compute(
        self,
        frame: Frame<N>,
        scope: Scope<N>,
        after: Self,
        done: Option<bool>,
    ) -> bool {
        let viewed = Image { view_iso: after.view_iso, view_mat: after.view_mat, ..self };
        let projected = Image { upp: after.upp, proj_mat: after.proj_mat, ..viewed };
        let cached = Image { frame, scope, ..projected };
        exists|same_frame: bool, same_zat: bool, same_scope: bool|
            self.frame.is_same(frame, same_frame) && op::same(self.frame.zat, frame.zat, same_zat)
                && self.scope.is_same(scope, same_scope) && (if same_frame {
                viewed == self
            } else {
                self.is_compute_view(frame, viewed)
            }) && (if same_zat && same_scope {
                projected == viewed
            } else {
                viewed.is_compute_projection_and_upp(frame.zat, scope, projected)
            }) && (if same_frame && same_zat && same_scope {
                done is None && after == cached
            } else {
                cached.is_recomputed(after, done)
            })
    }

    /// `after` has the transformation computed if it or its inverse is asked for and the
    /// inverse computed if it is asked for, and `done` tells of success.
    pub open spec fn is_recomputed(self, after: Self, done: Option<bool>) -> bool {
        let multiplied = Image { proj_view_inv: self.proj_view_inv, ..after };
        (if self.compute_mat || self.compute_inv {
            self.is_compute_transformation(multiplied)
        } else {
            multiplied == self
        }) && (if self.compute_inv {
            exists|inverted: bool|
                multiplied.is_compute_inverse_transformation(after, inverted) && done == Some(
                    inverted,
                )
        } else {
            after == multiplied && done == Some(true)
        })
    }

    /// `after` has the given screen extents. If they do not compare equal to the former
    /// ones, the cached scope has a vertical field of view of zero, which no scope in use
    /// has.
    pub open spec fn is_set_max(self, max: Vec2<N>, after: Self) -> bool {
        exists|x: bool, y: bool|
            op::same(self.max.x, max.x, x) && op::same(self.max.y, max.y, y) && if x && y {
                after == (Image { max, ..self })
            } else {
                exists|zero: N|
                    op::zero(zero) && after == (Image {
                        max,
                        scope: Scope { fov: Fixed::Ver(zero), ..self.scope },
                        ..self
                    })
            }
    }

    /// Computes initial transformations from frame, scope, and screen's width and height.
    pub fn new(frame: &Frame<N>, scope: &Scope<N>, max: Vec2<N>) -> (image: Self)
        ensures
            Self::is_new(*frame, *scope, max, image),
            image.max == max,
            image.frame == *frame,
            image.scope == *scope,
            image.compute_mat,
            image.compute_inv,
    {
        let blank = Image {
            pos: Vec2 { x: N::zero(), y: N::zero() },
            max,
            upp: N::zero(),
            frame: *frame,
            scope: *scope,
            view_iso: Iso3 { rot: N::rot_identity(), vec: origin() },
            view_mat: N::mat_zero(),
            proj_mat: N::mat_zero(),
            proj_view_mat: N::mat_zero(),
            proj_view_inv: N::mat_zero(),
            compute_mat: true,
            compute_inv: true,
        };
        let mut image = blank;
        image.compute_view(frame);
        let ghost viewed = image;
        image.compute_projection_and_upp(frame.distance(), scope);
        let ghost projected = image;
        image.compute_transformation();
        let ghost multiplied = image;
        let done = image.compute_inverse_transformation();
        assert(Self::is_blank(*frame, *scope, max, blank) && blank.is_compute_view(*frame, viewed)
            && viewed.is_compute_projection_and_upp(frame.zat, *scope, projected)
            && projected.is_compute_transformation(multiplied)
            && multiplied.is_compute_inverse_transformation(image, done));
        image
    }

    /// Recomputes only cached matrices whose parameters have changed, see [`Self::set_compute()`].
    ///
    /// Returns `Some(true)` on success, `Some(false)` on failure, and `None` with no changes.
    /// The inverse transformation is the only step that can fail, and it is taken only if it
    /// has been asked for. Neither transformation is touched unless one of them has been asked
    /// for.
    pub fn compute(&mut self, frame: Frame<N>, scope: Scope<N>) -> (done: Option<bool>)
        ensures
            old(self).is_compute(frame, scope, *final(self), done),
            final(self).frame == frame,
            final(self).scope == scope,
            final(self).pos == old(self).pos,
            final(self).max == old(self).max,
            final(self).compute_mat == old(self).compute_mat,
            final(self).compute_inv == old(self).compute_inv,
            done == Some(false) ==> old(self).compute_inv,
            !old(self).compute_inv ==> final(self).proj_view_inv == old(self).proj_view_inv,
            !old(self).compute_inv && !old(self).compute_mat
                ==> final(self).proj_view_mat == old(self).proj_view_mat,
    {
        let same_frame = self.frame.same(&frame);
        let same_zat = self.frame.distance().same(frame.distance());
        let same_scope = self.scope.same(&scope);
        assert(op::same(self.frame.zat, frame.zat, same_zat));
        if !same_frame {
            self.compute_view(&frame);
        }
        let ghost viewed = *self;
        if !(same_zat && same_scope) {
            self.compute_projection_and_upp(frame.distance(), &scope);
        }
        let ghost projected = *self;
        self.frame = frame;
        self.scope = scope;
        let ghost cached = *self;
        let done = if !(same_frame && same_zat && same_scope) {
            if self.compute_mat || self.compute_inv {
                self.compute_transformation();
            }
            let ghost multiplied = *self;
            let done = if self.compute_inv {
                Some(self.compute_inverse_transformation())
            } else {
                Some(true)
            };
            assert(cached.is_recomputed(*self, done)) by {
                assert((if cached.compute_mat || cached.compute_inv {
                    cached.is_compute_transformation(multiplied)
                } else {
                    multiplied == cached
                }) && (if cached.compute_inv {
                    done matches Some(inverted) && multiplied.is_compute_inverse_transformation(
                        *self,
                        inverted,
                    )
                } else {
                    *self == multiplied && done == Some(true)
                }));
            }
            done
        } else {
            None
        };
        assert(old(self).frame.is_same(frame, same_frame) && old(self).scope.is_same(
            scope,
            same_scope,
        ) && (if same_frame {
            viewed == *old(self)
        } else {
            old(self).is_compute_view(frame, viewed)
        }) && (if same_zat && same_scope {
            projected == viewed
        } else {
            viewed.is_compute_projection_and_upp(frame.zat, scope, projected)
        }) && cached == (Image { frame, scope, ..projected }));
        done
    }

    /// Sets whether to compute transformation and inverse transformation with [`Self::compute()`].
    ///
    /// Default is `(true, true)`.
    pub fn set_compute(&mut self, compute_mat: bool, compute_inv: bool)
        ensures
            *final(self) == (Image { compute_mat, compute_inv, ..*old(self) }),
    {
        self.compute_mat = compute_mat;
        self.compute_inv = compute_inv;
    }

    /// Current position in screen space of hovering input or pointing device.
    pub fn pos(&self) -> (pos: &Vec2<N>)
        ensures
            *pos == self.pos,
    {
        &self.pos
    }

    /// Sets current position in screen space of hovering input or pointing device.
    pub fn set_pos(&mut self, pos: Vec2<N>)
        ensures
            *final(self) == (Image { pos, ..*old(self) }),
    {
        self.pos = pos;
    }

    /// Maximum position in screen space as screen's width and height.
    pub fn max(&self) -> (max: &Vec2<N>)
        ensures
            *max == self.max,
    {
        &self.max
    }

    /// Sets maximum position in screen space as screen's width and height.
    ///
    /// A maximum that does not compare equal to the former one invalidates the cached scope
    /// so that [`Self::compute()`] recomputes the projection matrix.
    pub fn set_max(&mut self, max: Vec2<N>)
        ensures
            old(self).is_set_max(max, *final(self)),
    {
        let x = self.max.x.same(max.x);
        let y = self.max.y.same(max.y);
        assert(op::same(self.max.x, max.x, x) && op::same(self.max.y, max.y, y));
        if !(x && y) {
            let zero = N::zero();
            self.scope.fov = Fixed::Ver(zero);
            assert(op::zero(zero));
        }
        self.max = max;
    }

    /// Cached unit per pixel on focus plane to scale/project positions/vectors onto focus plane.
    pub fn upp(&self) -> (upp: N)
        ensures
            upp == self.upp,
    {
        self.upp
    }

    /// Cached view isometry.
    pub fn view_isometry(&self) -> (iso: &Iso3<N>)
        ensures
            *iso == self.view_iso,
    {
        &self.view_iso
    }

    /// Cached view matrix.
    pub fn view(&self) -> (mat: &Mat4<N>)
        ensures
            *mat == self.view_mat,
    {
        &self.view_mat
    }

    /// Computes view isometry and matrix from frame wrt camera eye and target.
    pub fn compute_view(&mut self, frame: &Frame<N>)
        ensures
            old(self).is_compute_view(*frame, *final(self)),
    {
        self.view_iso = frame.view();
        self.view_mat = N::iso_to_homogeneous(self.view_iso);
    }

    /// Cached projection matrix.
    pub fn projection(&self) -> (mat: &Mat4<N>)
        ensures
            *mat == self.proj_mat,
    {
        &self.proj_mat
    }

    /// Computes projection matrix and unit per pixel on focus plane.
    pub fn compute_projection_and_upp(&mut self, zat: N, scope: &Scope<N>)
        ensures
            old(self).is_compute_projection_and_upp(zat, *scope, *final(self)),
    {
        let (mat, upp) = scope.projection_and_upp(zat, &self.max);
        self.upp = upp;
        self.proj_mat = mat;
    }

    /// Cached projection view matrix.
    pub fn transformation(&self) -> (mat: &Mat4<N>)
        ensures
            *mat == self.proj_view_mat,
    {
        &self.proj_view_mat
    }

    /// Computes projection view matrix.
    pub fn compute_transformation(&mut self)
        ensures
            old(self).is_compute_transformation(*final(self)),
    {
        self.proj_view_mat = N::mat_mul(self.proj_mat, self.view_mat);
    }

    /// Cached inverse projection view matrix.
    pub fn inverse_transformation(&self) -> (mat: &Mat4<N>)
        ensures
            *mat == self.proj_view_inv,
    {
        &self.proj_view_inv
    }

    /// Computes inverse of projection view matrix.
    ///
    /// Returns `true` on success. On failure the cached inverse stays as it is.
    pub fn compute_inverse_transformation(&mut self) -> (done: bool)
        ensures
            old(self).is_compute_inverse_transformation(*final(self), done),
    {
        let inverse = N::mat_try_inverse(self.proj_view_mat);
        match inverse {
            Some(mat) => {
                self.proj_view_inv = mat;
                true
            },
            None => false,
        }
    }

    /// Each component of `inside` is the component of `pos` restricted to the interval from
    /// zero to the component of `max`.
    pub open spec fn is_clamp_pos_wrt_max(pos: Vec2<N>, max: Vec2<N>, inside: Vec2<N>) -> bool {
        exists|zero: N|
            op::zero(zero) && op::clamp(pos.x, zero, max.x, inside.x) && op::clamp(
                pos.y,
                zero,
                max.y,
                inside.y,
            )
    }

    /// `center` is half of `max`, and `centered` is `(pos.x - center.x, center.y - pos.y)`.
    pub open spec fn is_transform_pos_and_max_wrt_max(
        pos: Vec2<N>,
        max: Vec2<N>,
        centered: Vec2<N>,
        center: Vec2<N>,
    ) -> bool {
        exists|half: N|
            op::half(half) && op::times(max.x, half, center.x) && op::times(max.y, half, center.y)
                && op::minus(pos.x, center.x, centered.x) && op::minus(
                center.y,
                pos.y,
                centered.y,
            )
    }

    /// `image` is `(vec.x * upp, vec.y * upp, 0)`.
    pub open spec fn is_projected(self, vec: Vec2<N>, image: Vec3<N>) -> bool {
        op::times(vec.x, self.upp, image.x) && op::times(vec.y, self.upp, image.y) && op::zero(
            image.z,
        )
    }

    /// Clamps position in screen space wrt its maximum in screen space.
    pub fn clamp_pos_wrt_max(pos: &Vec2<N>, max: &Vec2<N>) -> (inside: Vec2<N>)
        ensures
            Self::is_clamp_pos_wrt_max(*pos, *max, inside),
    {
        let zero = N::zero();
        Vec2 { x: pos.x.clamp(zero, max.x), y: pos.y.clamp(zero, max.y) }
    }

    /// Clamps position in screen space.
    pub fn clamp_pos(&self, pos: &Vec2<N>) -> (inside: Vec2<N>)
        ensures
            Self::is_clamp_pos_wrt_max(*pos, self.max, inside),
    {
        Self::clamp_pos_wrt_max(pos, &self.max)
    }

    /// Transforms position and its maximum from screen to camera space wrt its maximum.
    pub fn transform_pos_and_max_wrt_max(pos: &Vec2<N>, max: &Vec2<N>) -> (centered: (
        Vec2<N>,
        Vec2<N>,
    ))
        ensures
            Self::is_transform_pos_and_max_wrt_max(*pos, *max, centered.0, centered.1),
    {
        let half = N::half();
        let max = Vec2 { x: max.x.times(half), y: max.y.times(half) };
        (Vec2 { x: pos.x.minus(max.x), y: max.y.minus(pos.y) }, max)
    }

    /// Transforms position from screen to camera space.
    pub fn transform_pos(&self, pos: &Vec2<N>) -> (centered: Vec2<N>)
        ensures
            exists|center: Vec2<N>|
                Self::is_transform_pos_and_max_wrt_max(*pos, self.max, centered, center),
    {
        Self::transform_pos_and_max_wrt_max(pos, &self.max).0
    }

    /// Transforms vector from screen to camera space.
    pub fn transform_vec(pos: &Vec2<N>) -> (vec: Vec2<N>)
        ensures
            vec.x == pos.x,
            op::negate(pos.y, vec.y),
    {
        Vec2 { x: pos.x, y: pos.y.negate() }
    }

    /// Transforms position from screen to camera space and projects it onto focus plane.
    pub fn project_pos(&self, pos: &Vec2<N>) -> (image: Vec3<N>)
        ensures
            exists|centered: Vec2<N>, center: Vec2<N>|
                Self::is_transform_pos_and_max_wrt_max(*pos, self.max, centered, center)
                    && self.is_projected(centered, image),
    {
        let pos = self.transform_pos(pos);
        Vec3 { x: pos.x.times(self.upp), y: pos.y.times(self.upp), z: N::zero() }
    }

    /// Transforms vector from screen to camera space and projects it onto focus plane.
    pub fn project_vec(&self, vec: &Vec2<N>) -> (image: Vec3<N>)
        ensures
            exists|flipped: Vec2<N>|
                flipped.x == vec.x && op::negate(vec.y, flipped.y) && self.is_projected(
                    flipped,
                    image,
                ),
    {
        let flipped = Self::transform_vec(vec);
        let image = Vec3 {
            x: flipped.x.times(self.upp),
            y: flipped.y.times(self.upp),
            z: N::zero(),
        };
        assert(flipped.x == vec.x && op::negate(vec.y, flipped.y) && self.is_projected(
            flipped,
            image,
        ));
        image
    }
}

impl<N: Copy> Image<N> {
    /// `image` has each component cast and is to compute the same transformations.
    pub open spec fn is_cast<M>(self, image: Image<M>) -> bool where N: Cast<M> {
        is_cast_vec2(self.pos, image.pos) && is_cast_vec2(self.max, image.max) && is_cast(
            self.upp,
            image.upp,
        ) && self.frame.is_cast(image.frame) && self.scope.fov.is_cast(image.scope.fov) && is_cast(
            self.scope.znear,
            image.scope.znear,
        ) && is_cast(self.scope.zfar, image.scope.zfar) && image.scope.oim == self.scope.oim
            && image.scope.opm == self.scope.opm && is_cast_iso3(self.view_iso, image.view_iso)
            && is_cast_mat4(self.view_mat, image.view_mat) && is_cast_mat4(
            self.proj_mat,
            image.proj_mat,
        ) && is_cast_mat4(self.proj_view_mat, image.proj_view_mat) && is_cast_mat4(
            self.proj_view_inv,
            image.proj_view_inv,
        ) && image.compute_mat == self.compute_mat && image.compute_inv == self.compute_inv
    }

    /// Casts components to another type, e.g., between single and double precision.
    pub fn cast<M>(self) -> (image: Image<M>) where N: Cast<M>
        ensures
            self.is_cast(image),
    {
        Image {
            pos: cast_vec2(self.pos),
            max: cast_vec2(self.max),
            upp: self.upp.cast(),
            frame: self.frame.cast(),
            scope: self.scope.cast(),
            view_iso: cast_iso3(self.view_iso),
            view_mat: cast_mat4(&self.view_mat),
            proj_mat: cast_mat4(&self.proj_mat),
            proj_view_mat: cast_mat4(&self.proj_view_mat),
            proj_view_inv: cast_mat4(&self.proj_view_inv),
            compute_mat: self.compute_mat,
            compute_inv: self.compute_inv,
        }
    }
}

} // verus!
