//! Transforms made of a per-axis scaling followed by a translation.

use vstd::prelude::*;
use crate::math::vector::{Vec2, fits_i32};

verus! {

/// The mathematical content of a transform: a point `(x, y)` goes to
/// `(x * scale_x + shift_x, y * scale_y + shift_y)`. Scaling always comes
/// first.
pub struct Affine {
    pub scale_x: int,
    pub scale_y: int,
    pub shift_x: int,
    pub shift_y: int,
}

impl Affine {
    /// The image of the point `p`.
    pub open spec fn apply(self, p: (int, int)) -> (int, int) {
        (p.0 * self.scale_x + self.shift_x, p.1 * self.scale_y + self.shift_y)
    }

    /// The transform that has the effect of `self` followed by `next`.
    pub open spec fn followed_by(self, next: Affine) -> Affine {
        Affine {
            scale_x: self.scale_x * next.scale_x,
            scale_y: self.scale_y * next.scale_y,
            shift_x: self.shift_x * next.scale_x + next.shift_x,
            shift_y: self.shift_y * next.scale_y + next.shift_y,
        }
    }

    /// The same scaling with no translation.
    pub open spec fn scaling_part(self) -> Affine {
        Affine { scale_x: self.scale_x, scale_y: self.scale_y, shift_x: 0, shift_y: 0 }
    }

    /// The same translation with no scaling.
    pub open spec fn translation_part(self) -> Affine {
        Affine { scale_x: 1, scale_y: 1, shift_x: self.shift_x, shift_y: self.shift_y }
    }

    /// The transform that moves nothing.
    pub open spec fn identity() -> Affine {
        Affine { scale_x: 1, scale_y: 1, shift_x: 0, shift_y: 0 }
    }

    /// Whether all four coefficients are representable as coordinates.
    pub open spec fn representable(self) -> bool {
        &&& fits_i32(self.scale_x)
        &&& fits_i32(self.scale_y)
        &&& fits_i32(self.shift_x)
        &&& fits_i32(self.shift_y)
    }
}

/// A translation and a per-axis scaling of the plane.
#[derive(Debug, Clone, Copy, PartialEq, Eq, Structural, Hash)]
pub struct Transform2D {
    pub scaling: Vec2,
    pub translation: Vec2,
}

impl View for Transform2D {
    type V = Affine;

    open spec fn view(&self) -> Affine {
        Affine {
            scale_x: self.scaling.x as int,
            scale_y: self.scaling.y as int,
            shift_x: self.translation.x as int,
            shift_y: self.translation.y as int,
        }
    }
}

/// Something that can move a vector: it scales, then translates.
pub trait Transformer {
    /// The transform that `self` stands for.
    spec fn affine(&self) -> Affine;

    /// Whether the image of `v` is representable as a vector.
    open spec fn maps(&self, v: Vec2) -> bool {
        let image = self.affine().apply((v.x as int, v.y as int));
        fits_i32(image.0) && fits_i32(image.1)
    }

    /// Replaces `vector` by its image: each component is multiplied by the
    /// scaling of its axis, then the translation is added.
    fn transform_vec(&self, vector: &mut Vec2)
        requires
            self.maps(*old(vector)),
        ensures
            (final(vector).x as int, final(vector).y as int) == self.affine().apply(
                (old(vector).x as int, old(vector).y as int),
            ),
    ;

    /// The per-axis scaling factors.
    fn scaling(&self) -> (s: Vec2)
        ensures
            s.x == self.affine().scale_x,
            s.y == self.affine().scale_y,
    ;

    /// The translation.
    fn translation(&self) -> (t: Vec2)
        ensures
            t.x == self.affine().shift_x,
            t.y == self.affine().shift_y,
    ;

    /// Whether the images of axis-parallel segments are axis-parallel.
    fn is_axis_aligned(&self) -> (b: bool)
        ensures
            b,
    ;
}

/// Something that a transform can be applied to in place.
pub trait Transform: Sized {
    /// Whether every coordinate of the image under `t` is representable.
    spec fn transformable(&self, t: &Transform2D) -> bool;

    /// Whether `image` is the image of `self` under `t`.
    spec fn transforms_to(&self, t: &Transform2D, image: &Self) -> bool;

    /// Replaces `self` by its image under `transform`.
    fn transform(&mut self, transform: &Transform2D)
        requires
            old(self).transformable(transform),
        ensures
            old(self).transforms_to(transform, final(self)),
    ;
}

impl Transform2D {
    /// The transform with the given translation and scaling.
    pub fn new(translation: Vec2, scaling: Vec2) -> (t: Transform2D)
        ensures
            t == (Transform2D { scaling, translation }),
    {
        Transform2D { scaling, translation }
    }

    /// The transform that only scales.
    pub fn new_scaling(scaling: Vec2) -> (t: Transform2D)
        ensures
            t == (Transform2D { scaling, translation: Vec2 { x: 0, y: 0 } }),
    {
        Transform2D { scaling, translation: Vec2 { x: 0, y: 0 } }
    }

    /// The transform that only translates.
    pub fn new_translation(translation: Vec2) -> (t: Transform2D)
        ensures
            t == (Transform2D { scaling: Vec2 { x: 1, y: 1 }, translation }),
    {
        Transform2D { scaling: Vec2 { x: 1, y: 1 }, translation }
    }

    /// The translation.
    pub fn translation(self) -> (t: Vec2)
        ensures
            t == self.translation,
    {
        self.translation
    }

    /// A handle on the translation; the scaling is left as it is.
    pub fn translation_mut(&mut self) -> (t: &mut Vec2)
        ensures
            *t == old(self).translation,
            *final(self) == (Transform2D { scaling: old(self).scaling, translation: *final(t) }),
    {
        &mut self.translation
    }

    /// The per-axis scaling factors.
    pub fn scaling(&self) -> (s: Vec2)
        ensures
            s == self.scaling,
    {
        self.scaling
    }

    /// A handle on the scaling; the translation is left as it is.
    pub fn scaling_mut(&mut self) -> (s: &mut Vec2)
        ensures
            *s == old(self).scaling,
            *final(self) == (Transform2D { scaling: *final(s), translation: old(self).translation }),
    {
        &mut self.scaling
    }

    /// The transform that moves nothing: scaling one, translation zero.
    pub fn identity() -> (t: Transform2D)
        ensures
            t == (Transform2D { scaling: Vec2 { x: 1, y: 1 }, translation: Vec2 { x: 0, y: 0 } }),
            t@ == Affine::identity(),
    {
        Transform2D { scaling: Vec2 { x: 1, y: 1 }, translation: Vec2 { x: 0, y: 0 } }
    }

    /// The scaling of `self` alone. Sizes are transformed by this part.
    pub fn scaling_part(&self) -> (t: Transform2D)
        ensures
            t == (Transform2D { scaling: self.scaling, translation: Vec2 { x: 0, y: 0 } }),
            t@ == self@.scaling_part(),
    {
        Transform2D { scaling: self.scaling, translation: Vec2 { x: 0, y: 0 } }
    }

    /// The translation of `self` alone.
    pub fn translation_part(&self) -> (t: Transform2D)
        ensures
            t == (Transform2D { scaling: Vec2 { x: 1, y: 1 }, translation: self.translation }),
            t@ == self@.translation_part(),
    {
        Transform2D { scaling: Vec2 { x: 1, y: 1 }, translation: self.translation }
    }

    /// The single transform that acts as `self` followed by `next`, where
    /// its coefficients are representable.
    pub fn compose(&self, next: &Transform2D) -> (t: Transform2D)
        requires
            self@.followed_by(next@).representable(),
        ensures
            t@ == self@.followed_by(next@),
    {
        let ghost composed = self@.followed_by(next@);
        let sx: i64 = (self.scaling.x as i64) * (next.scaling.x as i64);
        let sy: i64 = (self.scaling.y as i64) * (next.scaling.y as i64);
        let tx: i64 = (self.translation.x as i64) * (next.scaling.x as i64) + (
        next.translation.x as i64);
        let ty: i64 = (self.translation.y as i64) * (next.scaling.y as i64) + (
        next.translation.y as i64);
        Transform2D {
            scaling: Vec2 { x: sx as i32, y: sy as i32 },
            translation: Vec2 { x: tx as i32, y: ty as i32 },
        }
    }
}

impl Default for Transform2D {
    fn default() -> (t: Transform2D)
        ensures
            t@ == Affine::identity(),
    {
        Transform2D::identity()
    }
}

impl Transformer for Transform2D {
    open spec fn affine(&self) -> Affine {
        self@
    }

    fn transform_vec(&self, vector: &mut Vec2) {
        let x: i64 = (vector.x as i64) * (self.scaling.x as i64) + (self.translation.x as i64);
        let y: i64 = (vector.y as i64) * (self.scaling.y as i64) + (self.translation.y as i64);
        vector.x = x as i32;
        vector.y = y as i32;
    }

    fn scaling(&self) -> (s: Vec2) {
        self.scaling
    }

    fn translation(&self) -> (t: Vec2) {
        self.translation
    }

    fn is_axis_aligned(&self) -> (b: bool) {
        true
    }
}

impl Vec2 {
    /// The image of `self` under `t`.
    pub open spec fn transformed(&self, t: &Transform2D) -> Vec2 {
        let image = t@.apply((self.x as int, self.y as int));
        Vec2 { x: image.0 as i32, y: image.1 as i32 }
    }
}

impl Transform for Vec2 {
    open spec fn transformable(&self, t: &Transform2D) -> bool {
        t.maps(*self)
    }

    open spec fn transforms_to(&self, t: &Transform2D, image: &Vec2) -> bool {
        *image == self.transformed(t)
    }

    fn transform(&mut self, transform: &Transform2D) {
        transform.transform_vec(self);
    }
}

impl core::ops::Mul<Transform2D> for Vec2 {
    type Output = Vec2;

    /// The image of the vector under `rhs`.
    fn mul(self, rhs: Transform2D) -> (image: Vec2) {
        let mut image = self;
        image.transform(&rhs);
        image
    }
}

impl vstd::std_specs::ops::MulSpecImpl<Transform2D> for Vec2 {
    open spec fn obeys_mul_spec() -> bool {
        true
    }

    open spec fn mul_req(self, rhs: Transform2D) -> bool {
        self.transformable(&rhs)
    }

    open spec fn mul_spec(self, rhs: Transform2D) -> Vec2 {
        self.transformed(&rhs)
    }
}

/// Applying `a` and then `b` to a point is applying their composition once.
pub proof fn lemma_composition_applies_in_turn(a: Affine, b: Affine, p: (int, int))
    ensures
        a.followed_by(b).apply(p) == b.apply(a.apply(p)),
{
    assert((p.0 * a.scale_x + a.shift_x) * b.scale_x + b.shift_x == p.0 * (a.scale_x * b.scale_x)
        + (a.shift_x * b.scale_x + b.shift_x)) by (nonlinear_arith);
    assert((p.1 * a.scale_y + a.shift_y) * b.scale_y + b.shift_y == p.1 * (a.scale_y * b.scale_y)
        + (a.shift_y * b.scale_y + b.shift_y)) by (nonlinear_arith);
}

/// Composition is associative, and the identity is neutral on both sides.
pub proof fn lemma_composition_is_associative(a: Affine, b: Affine, c: Affine)
    ensures
        a.followed_by(b).followed_by(c) == a.followed_by(b.followed_by(c)),
        a.followed_by(Affine::identity()) == a,
        Affine::identity().followed_by(a) == a,
{
    assert(a.scale_x * 1 == a.scale_x && a.scale_y * 1 == a.scale_y && a.shift_x * 1 == a.shift_x
        && a.shift_y * 1 == a.shift_y && 1 * a.scale_x == a.scale_x && 1 * a.scale_y == a.scale_y
        && 0 * a.scale_x == 0 && 0 * a.scale_y == 0) by (nonlinear_arith);
    assert((a.scale_x * b.scale_x) * c.scale_x == a.scale_x * (b.scale_x * c.scale_x))
        by (nonlinear_arith);
    assert((a.scale_y * b.scale_y) * c.scale_y == a.scale_y * (b.scale_y * c.scale_y))
        by (nonlinear_arith);
    assert((a.shift_x * b.scale_x + b.shift_x) * c.scale_x + c.shift_x == a.shift_x * (b.scale_x
        * c.scale_x) + (b.shift_x * c.scale_x + c.shift_x)) by (nonlinear_arith);
    assert((a.shift_y * b.scale_y + b.shift_y) * c.scale_y + c.shift_y == a.shift_y * (b.scale_y
        * c.scale_y) + (b.shift_y * c.scale_y + c.shift_y)) by (nonlinear_arith);
}

/// A transform is its scaling part followed by its translation part.
pub proof fn lemma_parts_recompose(a: Affine)
    ensures
        a.scaling_part().followed_by(a.translation_part()) == a,
{
    let one = a.translation_part().scale_x;
    assert(a.scale_x * one == a.scale_x && a.scale_y * one == a.scale_y && 0 * one == 0)
        by (nonlinear_arith)
        requires
            one == 1,
    ;
}

/// Transforming a vector by `a` and then by `b` gives what transforming it
/// once by their composition gives, wherever all three are representable.
pub proof fn lemma_transform_twice_is_compose(v: Vec2, a: Transform2D, b: Transform2D, c: Transform2D)
    requires
        v.transformable(&a),
        v.transformed(&a).transformable(&b),
        c@ == a@.followed_by(b@),
    ensures
        v.transformable(&c),
        v.transformed(&a).transformed(&b) == v.transformed(&c),
{
    lemma_composition_applies_in_turn(a@, b@, (v.x as int, v.y as int));
}

} // verus!
