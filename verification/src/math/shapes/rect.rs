//! Axis-parallel rectangles.

use vstd::prelude::*;
use crate::math::vector::{Vec2, fits_i32};
use crate::math::transform::{Transform, Transform2D};

verus! {

/// The rectangle with its corner of least coordinates at `position`,
/// `size.x` wide and `size.y` high.
#[derive(Debug, Clone, Copy, PartialEq, Eq, Structural, PartialOrd, Ord, Hash)]
pub struct Rect {
    pub position: Vec2,
    pub size: Vec2,
}

impl Rect {
    /// The rectangle at `(x, y)` with the given width and height.
    pub fn new(x: i32, y: i32, width: i32, height: i32) -> (r: Rect)
        ensures
            r == (Rect { position: Vec2 { x, y }, size: Vec2 { x: width, y: height } }),
    {
        Rect { position: Vec2::new(x, y), size: Vec2::new(width, height) }
    }

    /// The rectangle at `position` with the given size.
    pub fn new_vec(position: Vec2, size: Vec2) -> (r: Rect)
        ensures
            r == (Rect { position, size }),
    {
        Rect { position, size }
    }

    /// Shifts the rectangle by `offset`. Its size stays.
    pub fn translate(&mut self, offset: Vec2)
        requires
            fits_i32(old(self).position.x + offset.x),
            fits_i32(old(self).position.y + offset.y),
        ensures
            final(self).position.x == old(self).position.x + offset.x,
            final(self).position.y == old(self).position.y + offset.y,
            final(self).size == old(self).size,
    {
        self.position.translate(offset);
    }

    /// Multiplies position and size by the factor of their axis.
    pub fn scale(&mut self, factor: Vec2)
        requires
            fits_i32(old(self).position.x * factor.x),
            fits_i32(old(self).position.y * factor.y),
            fits_i32(old(self).size.x * factor.x),
            fits_i32(old(self).size.y * factor.y),
        ensures
            final(self).position.x == old(self).position.x * factor.x,
            final(self).position.y == old(self).position.y * factor.y,
            final(self).size.x == old(self).size.x * factor.x,
            final(self).size.y == old(self).size.y * factor.y,
    {
        self.position.scale(factor);
        self.size.scale(factor);
    }

    /// The left edge as a number.
    pub open spec fn left(self) -> int {
        self.position.x as int
    }

    /// One past the right edge as a number.
    pub open spec fn right(self) -> int {
        self.position.x + self.size.x
    }

    /// The top edge as a number.
    pub open spec fn top(self) -> int {
        self.position.y as int
    }

    /// One past the bottom edge as a number.
    pub open spec fn bottom(self) -> int {
        self.position.y + self.size.y
    }

    /// Whether the point `(x, y)` lies in the rectangle: the left and top
    /// edges belong to it, the right and bottom ones do not.
    pub open spec fn contains(self, x: int, y: int) -> bool {
        self.left() <= x < self.right() && self.top() <= y < self.bottom()
    }

    /// The left edge.
    pub fn x1(&self) -> (v: i32)
        ensures
            v == self.left(),
    {
        self.position.x
    }

    /// One past the right edge.
    pub fn x2(&self) -> (v: i32)
        requires
            fits_i32(self.right()),
        ensures
            v == self.right(),
    {
        self.position.x + self.size.x
    }

    /// The top edge.
    pub fn y1(&self) -> (v: i32)
        ensures
            v == self.top(),
    {
        self.position.y
    }

    /// One past the bottom edge.
    pub fn y2(&self) -> (v: i32)
        requires
            fits_i32(self.bottom()),
        ensures
            v == self.bottom(),
    {
        self.position.y + self.size.y
    }
}

impl Rect {
    /// The image of `self` under `t`.
    pub open spec fn transformed(&self, t: &Transform2D) -> Rect {
        Rect {
            position: self.position.transformed(t),
            size: Vec2 {
                x: (self.size.x * t.scaling.x) as i32,
                y: (self.size.y * t.scaling.y) as i32,
            },
        }
    }
}

impl Transform for Rect {
    open spec fn transformable(&self, t: &Transform2D) -> bool {
        &&& self.position.transformable(t)
        &&& fits_i32(self.size.x * t.scaling.x)
        &&& fits_i32(self.size.y * t.scaling.y)
    }

    open spec fn transforms_to(&self, t: &Transform2D, image: &Rect) -> bool {
        *image == self.transformed(t)
    }

    /// The position is moved by the whole transform, the size by its
    /// scaling alone.
    fn transform(&mut self, transform: &Transform2D) {
        self.position.transform(transform);
        self.size.transform(&transform.scaling_part());
    }
}

} // verus!
