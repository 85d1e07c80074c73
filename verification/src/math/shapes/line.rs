//! Line segments.

use vstd::prelude::*;
use crate::math::vector::{Vec2, fits_i32};
use crate::math::transform::{Transform, Transform2D};

verus! {

/// The segment from `start` to `end`, both included.
#[derive(Debug, Clone, Copy, PartialEq, Eq, Structural, PartialOrd, Ord, Hash)]
pub struct Line {
    pub start: Vec2,
    pub end: Vec2,
}

impl Line {
    /// The segment from `(x1, y1)` to `(x2, y2)`.
    pub fn new(x1: i32, y1: i32, x2: i32, y2: i32) -> (l: Line)
        ensures
            l == (Line { start: Vec2 { x: x1, y: y1 }, end: Vec2 { x: x2, y: y2 } }),
    {
        Line { start: Vec2::new(x1, y1), end: Vec2::new(x2, y2) }
    }

    /// The segment between two points.
    pub fn new_vec(start: Vec2, end: Vec2) -> (l: Line)
        ensures
            l == (Line { start, end }),
    {
        Line { start, end }
    }

    /// The segment from the first point of the array to the second.
    pub fn new_slice(slice: [Vec2; 2]) -> (l: Line)
        ensures
            l == (Line { start: slice[0], end: slice[1] }),
    {
        Line { start: slice[0], end: slice[1] }
    }

    /// The first endpoint.
    pub fn start(&self) -> (p: &Vec2)
        ensures
            *p == self.start,
    {
        &self.start
    }

    /// A handle on the first endpoint; the second is left as it is.
    pub fn start_mut(&mut self) -> (p: &mut Vec2)
        ensures
            *p == old(self).start,
            *final(self) == (Line { start: *final(p), end: old(self).end }),
    {
        &mut self.start
    }

    /// Replaces the first endpoint.
    pub fn set_start(&mut self, start: Vec2)
        ensures
            *final(self) == (Line { start, end: old(self).end }),
    {
        self.start = start;
    }

    /// The second endpoint.
    pub fn end(&self) -> (p: &Vec2)
        ensures
            *p == self.end,
    {
        &self.end
    }

    /// A handle on the second endpoint; the first is left as it is.
    pub fn end_mut(&mut self) -> (p: &mut Vec2)
        ensures
            *p == old(self).end,
            *final(self) == (Line { start: old(self).start, end: *final(p) }),
    {
        &mut self.end
    }

    /// Replaces the second endpoint.
    pub fn set_end(&mut self, end: Vec2)
        ensures
            *final(self) == (Line { start: old(self).start, end }),
    {
        self.end = end;
    }

    /// Shifts both endpoints by `offset`.
    pub fn translate(&mut self, offset: &Vec2)
        requires
            fits_i32(old(self).start.x + offset.x),
            fits_i32(old(self).start.y + offset.y),
            fits_i32(old(self).end.x + offset.x),
            fits_i32(old(self).end.y + offset.y),
        ensures
            final(self).start.x == old(self).start.x + offset.x,
            final(self).start.y == old(self).start.y + offset.y,
            final(self).end.x == old(self).end.x + offset.x,
            final(self).end.y == old(self).end.y + offset.y,
    {
        self.start.translate(*offset);
        self.end.translate(*offset);
    }

    /// Multiplies each coordinate of both endpoints by the factor of its
    /// axis.
    pub fn scale(&mut self, factor: &Vec2)
        requires
            fits_i32(old(self).start.x * factor.x),
            fits_i32(old(self).start.y * factor.y),
            fits_i32(old(self).end.x * factor.x),
            fits_i32(old(self).end.y * factor.y),
        ensures
            final(self).start.x == old(self).start.x * factor.x,
            final(self).start.y == old(self).start.y * factor.y,
            final(self).end.x == old(self).end.x * factor.x,
            final(self).end.y == old(self).end.y * factor.y,
    {
        self.start.scale(*factor);
        self.end.scale(*factor);
    }

    /// The four coordinates, borrowed: start first.
    pub fn as_tuple(&self) -> (r: ((&i32, &i32), (&i32, &i32)))
        ensures
            *r.0.0 == self.start.x,
            *r.0.1 == self.start.y,
            *r.1.0 == self.end.x,
            *r.1.1 == self.end.y,
    {
        (self.start.as_tuple(), self.end.as_tuple())
    }

    /// The four coordinates, by value: start first.
    pub fn to_tuple(self) -> (r: ((i32, i32), (i32, i32)))
        ensures
            r == ((self.start.x, self.start.y), (self.end.x, self.end.y)),
    {
        (self.start.to_tuple(), self.end.to_tuple())
    }
}

impl Line {
    /// The image of `self` under `t`.
    pub open spec fn transformed(&self, t: &Transform2D) -> Line {
        Line { start: self.start.transformed(t), end: self.end.transformed(t) }
    }
}

impl Transform for Line {
    open spec fn transformable(&self, t: &Transform2D) -> bool {
        self.start.transformable(t) && self.end.transformable(t)
    }

    open spec fn transforms_to(&self, t: &Transform2D, image: &Line) -> bool {
        *image == self.transformed(t)
    }

    /// Both endpoints are moved by the whole transform.
    fn transform(&mut self, transform: &Transform2D) {
        self.start.transform(transform);
        self.end.transform(transform);
    }
}

} // verus!
