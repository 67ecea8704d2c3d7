//! Slide induced by displacement on screen.
use vstd::prelude::*;
use crate::field::{cast_vec2, is_cast_vec2, Cast, Scalar, Vec2};
use crate::op;

verus! {

/// Slide induced by displacement on screen.
///
/// Both its methods must be invoked on matching events.
#[derive(Clone, Copy, Debug)]
pub struct Slide<N> {
    /// Caches previous cursor/finger position.
    pub pos: Option<Vec2<N>>,
}

impl<N: Scalar> Default for Slide<N> {
    fn default() -> (slide: Self)
        ensures
            slide.pos is None,
    {
        Slide { pos: None }
    }
}

impl<N: Scalar> Slide<N> {
    /// Computes slide between previous and current cursor/finger position in screen space.
    ///
    /// Returns the vector from the current to the previous position, or `None` if there is no
    /// previous one. The current position is cached either way.
    pub fn compute(&mut self, pos: Vec2<N>) -> (vec: Option<Vec2<N>>)
        ensures
            final(self).pos == Some(pos),
            match old(self).pos {
                Some(before) => vec matches Some(by) && op::minus(before.x, pos.x, by.x)
                    && op::minus(before.y, pos.y, by.y),
                None => vec is None,
            },
    {
        let old = self.pos;
        self.pos = Some(pos);
        match old {
            Some(old) => Some(Vec2 { x: old.x.minus(pos.x), y: old.y.minus(pos.y) }),
            None => None,
        }
    }

    /// Discards cached previous cursor/finger position on button/finger release.
    pub fn discard(&mut self)
        ensures
            final(self).pos is None,
    {
        self.pos = None;
    }
}

impl<N: Copy> Slide<N> {
    /// Casts components to another type, e.g., between single and double precision.
    pub fn cast<M>(self) -> (slide: Slide<M>) where N: Cast<M>
        ensures
            match self.pos {
                Some(pos) => slide.pos matches Some(cast) && is_cast_vec2(pos, cast),
                None => slide.pos is None,
            },
    {
        Slide {
            pos: match self.pos {
                Some(pos) => Some(cast_vec2(pos)),
                None => None,
            },
        }
    }
}

} // verus!
