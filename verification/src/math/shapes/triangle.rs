//! Triangles.

use vstd::prelude::*;
use crate::math::vector::Vec2;
use crate::math::transform::{Transform, Transform2D};

verus! {

/// The triangle with corners `a`, `b` and `c`.
#[derive(Debug, Clone, Copy, PartialEq, Eq, Structural)]
pub struct Triangle {
    pub a: Vec2,
    pub b: Vec2,
    pub c: Vec2,
}

impl Triangle {
    /// The triangle with the given corners.
    pub fn new(a: Vec2, b: Vec2, c: Vec2) -> (t: Triangle)
        ensures
            t == (Triangle { a, b, c }),
    {
        Triangle { a, b, c }
    }
}

impl Triangle {
    /// The image of `self` under `t`.
    pub open spec fn transformed(&self, t: &Transform2D) -> Triangle {
        Triangle {
            a: self.a.transformed(t),
            b: self.b.transformed(t),
            c: self.c.transformed(t),
        }
    }
}

impl Transform for Triangle {
    open spec fn transformable(&self, t: &Transform2D) -> bool {
        self.a.transformable(t) && self.b.transformable(t) && self.c.transformable(t)
    }

    open spec fn transforms_to(&self, t: &Transform2D, image: &Triangle) -> bool {
        *image == self.transformed(t)
    }

    /// All three corners are moved by the whole transform.
    fn transform(&mut self, transform: &Transform2D) {
        self.a.transform(transform);
        self.b.transform(transform);
        self.c.transform(transform);
    }
}

} // verus!
