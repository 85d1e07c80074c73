//! Circles.

use vstd::prelude::*;
use crate::math::vector::{Vec2, fits_i32};
use crate::math::transform::{Transform, Transform2D};

verus! {

/// The circle around `center` with the given radius, in pixels.
#[derive(Debug, Clone, Copy, PartialEq, Eq, Structural, PartialOrd, Ord, Hash)]
pub struct Circle {
    pub center: Vec2,
    pub radius: i32,
}

impl Circle {
    /// The circle around `(x, y)`.
    pub fn new(x: i32, y: i32, radius: i32) -> (c: Circle)
        ensures
            c == (Circle { center: Vec2 { x, y }, radius }),
    {
        Circle { center: Vec2::new(x, y), radius }
    }

    /// The center.
    pub fn center(&self) -> (p: &Vec2)
        ensures
            *p == self.center,
    {
        &self.center
    }

    /// The radius.
    pub fn radius(&self) -> (r: i32)
        ensures
            r == self.radius,
    {
        self.radius
    }
}

impl Circle {
    /// The image of `self` under `t`.
    pub open spec fn transformed(&self, t: &Transform2D) -> Circle {
        Circle {
            center: self.center.transformed(t),
            radius: (self.radius * t.scaling.x) as i32,
        }
    }
}

impl Transform for Circle {
    open spec fn transformable(&self, t: &Transform2D) -> bool {
        self.center.transformable(t) && fits_i32(self.radius * t.scaling.x)
    }

    open spec fn transforms_to(&self, t: &Transform2D, image: &Circle) -> bool {
        *image == self.transformed(t)
    }

    /// The center is moved by the whole transform; the radius is multiplied
    /// by the scaling of the first axis.
    fn transform(&mut self, transform: &Transform2D) {
        self.center.transform(transform);
        self.radius = self.radius * transform.scaling.x;
    }
}

} // verus!
