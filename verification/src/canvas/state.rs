//! The mathematical content of a canvas, and what painting does to it.

use vstd::prelude::*;
use crate::color::Color;
use crate::canvas::View;
use crate::canvas::draw_commands::marker::Marker;
use crate::math::shapes::rect::Rect;
use crate::math::vector::Vec2;

verus! {

/// The mathematical content of a canvas.
pub struct CanvasState {
    pub width: nat,
    pub height: nat,
    /// The pixels, row after row: the pixel `(x, y)` is at `y * width + x`.
    pub pixels: Seq<Color>,
    pub view: View,
    /// The queued markers, oldest first.
    pub markers: Seq<Marker>,
}

impl CanvasState {
    /// The buffer holds one color per pixel, and both dimensions are
    /// representable as coordinates.
    pub open spec fn wf(self) -> bool {
        &&& self.pixels.len() == self.width * self.height
        &&& self.width <= i32::MAX
        &&& self.height <= i32::MAX
    }

    /// Whether `(x, y)` names a pixel of the canvas.
    pub open spec fn in_bounds(self, x: int, y: int) -> bool {
        0 <= x < self.width && 0 <= y < self.height
    }

    /// The place of the pixel `(x, y)` in the buffer.
    pub open spec fn offset(self, x: int, y: int) -> int {
        y * self.width + x
    }

    /// The color at `(x, y)`, or nothing outside the canvas.
    pub open spec fn pixel(self, x: int, y: int) -> Option<Color> {
        if self.in_bounds(x, y) {
            Some(self.pixels[self.offset(x, y)])
        } else {
            None
        }
    }

    /// The same canvas with other pixels.
    pub open spec fn with_pixels(self, pixels: Seq<Color>) -> CanvasState {
        CanvasState { pixels, ..self }
    }

    /// The same canvas with other markers.
    pub open spec fn with_markers(self, markers: Seq<Marker>) -> CanvasState {
        CanvasState { markers, ..self }
    }

    /// The same canvas with another view.
    pub open spec fn with_view(self, view: View) -> CanvasState {
        CanvasState { view, ..self }
    }

    /// The same canvas with the color `color` at buffer place `i`.
    pub open spec fn with_color_at(self, i: int, color: Color) -> CanvasState {
        self.with_pixels(self.pixels.update(i, color))
    }

    /// The same canvas with the buffer places from `from` up to `to`
    /// replaced by `span`.
    pub open spec fn with_span(self, from: int, to: int, span: Seq<Color>) -> CanvasState {
        self.with_pixels(
            self.pixels.subrange(0, from) + (span + self.pixels.subrange(
                to,
                self.pixels.len() as int,
            )),
        )
    }

    /// The same canvas with `color` at every pixel of `region`.
    pub open spec fn painted(self, region: spec_fn(int, int) -> bool, color: Color) -> CanvasState {
        self.with_pixels(
            Seq::new(
                self.pixels.len(),
                |i: int|
                    if region(i % (self.width as int), i / (self.width as int)) {
                        color
                    } else {
                        self.pixels[i]
                    },
            ),
        )
    }

    /// The clip rectangle that covers the whole canvas.
    pub open spec fn full_clip(self) -> Rect {
        Rect {
            position: Vec2 { x: 0, y: 0 },
            size: Vec2 { x: self.width as i32, y: self.height as i32 },
        }
    }
}

/// A buffer place and the pixel it belongs to determine each other.
pub proof fn lemma_offset_coordinates(s: CanvasState, x: int, y: int)
    requires
        s.in_bounds(x, y),
        s.pixels.len() == s.width * s.height,
    ensures
        0 <= s.offset(x, y) < s.pixels.len(),
        s.offset(x, y) % (s.width as int) == x,
        s.offset(x, y) / (s.width as int) == y,
{
    let w = s.width as int;
    let h = s.height as int;
    assert(0 <= y * w && y * w + w <= w * h) by (nonlinear_arith)
        requires
            0 <= y < h,
            0 < w,
    ;
    vstd::arithmetic::div_mod::lemma_fundamental_div_mod_converse(y * w + x, w, y, x);
}

/// Every buffer place belongs to a pixel of the canvas.
pub proof fn lemma_place_coordinates(s: CanvasState, i: int)
    requires
        0 <= i < s.pixels.len(),
        s.pixels.len() == s.width * s.height,
    ensures
        s.in_bounds(i % (s.width as int), i / (s.width as int)),
        s.offset(i % (s.width as int), i / (s.width as int)) == i,
{
    let w = s.width as int;
    let h = s.height as int;
    assert(w > 0) by (nonlinear_arith)
        requires
            0 <= i < w * h,
            w >= 0,
    ;
    vstd::arithmetic::div_mod::lemma_fundamental_div_mod(i, w);
    vstd::arithmetic::div_mod::lemma_mod_bound(i, w);
    let q = i / w;
    let r = i % w;
    assert(w * q == q * w) by (nonlinear_arith);
    assert(0 <= q < h) by (nonlinear_arith)
        requires
            i == q * w + r,
            0 <= r < w,
            0 <= i < w * h,
    ;
}

/// Painting a region changes the pixels of the region, and no others.
pub proof fn lemma_painted_pixel(
    s: CanvasState,
    region: spec_fn(int, int) -> bool,
    color: Color,
    x: int,
    y: int,
)
    requires
        s.pixels.len() == s.width * s.height,
    ensures
        s.painted(region, color).pixel(x, y) == if !s.in_bounds(x, y) {
            None
        } else if region(x, y) {
            Some(color)
        } else {
            s.pixel(x, y)
        },
{
    if s.in_bounds(x, y) {
        lemma_offset_coordinates(s, x, y);
    }
}

/// Two canvases of one size that agree at every pixel hold the same buffer.
pub proof fn lemma_pixels_determine_buffer(a: CanvasState, b: CanvasState)
    requires
        a.pixels.len() == a.width * a.height,
        b.pixels.len() == b.width * b.height,
        a.width == b.width,
        a.height == b.height,
        forall|x: int, y: int| a.in_bounds(x, y) ==> a.pixel(x, y) == b.pixel(x, y),
    ensures
        a.pixels == b.pixels,
{
    assert forall|i: int| 0 <= i < a.pixels.len() implies a.pixels[i] == b.pixels[i] by {
        lemma_place_coordinates(a, i);
        let x = i % (a.width as int);
        let y = i / (a.width as int);
        assert(a.pixel(x, y) == b.pixel(x, y));
    }
    assert(a.pixels =~= b.pixels);
}

/// Painting one pixel more: writing `color` at `(x, y)` after painting
/// `region` is painting the region with that pixel added.
pub proof fn lemma_paint_one_more(
    s: CanvasState,
    region: spec_fn(int, int) -> bool,
    larger: spec_fn(int, int) -> bool,
    color: Color,
    x: int,
    y: int,
)
    requires
        s.pixels.len() == s.width * s.height,
        forall|a: int, b: int|
            s.in_bounds(a, b) ==> (#[trigger] larger(a, b) <==> region(a, b) || (a == x && b == y)),
    ensures
        s.in_bounds(x, y) ==> s.painted(larger, color) == s.painted(region, color).with_color_at(
            s.offset(x, y),
            color,
        ),
        !s.in_bounds(x, y) ==> s.painted(larger, color) == s.painted(region, color),
{
    let w = s.width as int;
    let p = s.painted(region, color);
    let q = s.painted(larger, color);
    if s.in_bounds(x, y) {
        lemma_offset_coordinates(s, x, y);
        let target = p.with_color_at(s.offset(x, y), color);
        assert forall|i: int| 0 <= i < s.pixels.len() implies q.pixels[i] == target.pixels[i] by {
            lemma_place_coordinates(s, i);
            assert(larger(i % w, i / w) <==> region(i % w, i / w) || (i % w == x && i / w == y));
        }
        assert(q.pixels =~= target.pixels);
    } else {
        assert forall|i: int| 0 <= i < s.pixels.len() implies q.pixels[i] == p.pixels[i] by {
            lemma_place_coordinates(s, i);
            assert(larger(i % w, i / w) <==> region(i % w, i / w) || (i % w == x && i / w == y));
        }
        assert(q.pixels =~= p.pixels);
    }
}

/// Painting two regions in turn with one color is painting their union.
pub proof fn lemma_paint_more(
    s: CanvasState,
    region: spec_fn(int, int) -> bool,
    extra: spec_fn(int, int) -> bool,
    both: spec_fn(int, int) -> bool,
    color: Color,
)
    requires
        s.pixels.len() == s.width * s.height,
        forall|a: int, b: int|
            s.in_bounds(a, b) ==> (#[trigger] both(a, b) <==> region(a, b) || extra(a, b)),
    ensures
        s.painted(region, color).painted(extra, color) == s.painted(both, color),
{
    let w = s.width as int;
    let twice = s.painted(region, color).painted(extra, color);
    let once = s.painted(both, color);
    assert forall|i: int| 0 <= i < s.pixels.len() implies twice.pixels[i] == once.pixels[i] by {
        lemma_place_coordinates(s, i);
        assert(both(i % w, i / w) <==> region(i % w, i / w) || extra(i % w, i / w));
    }
    assert(twice.pixels =~= once.pixels);
}

/// Painting depends only on which pixels of the canvas a region holds.
pub proof fn lemma_paint_same(
    s: CanvasState,
    region: spec_fn(int, int) -> bool,
    other: spec_fn(int, int) -> bool,
    color: Color,
)
    requires
        s.pixels.len() == s.width * s.height,
        forall|a: int, b: int| s.in_bounds(a, b) ==> (#[trigger] region(a, b) <==> other(a, b)),
    ensures
        s.painted(region, color) == s.painted(other, color),
{
    let w = s.width as int;
    assert forall|i: int| 0 <= i < s.pixels.len() implies s.painted(region, color).pixels[i]
        == s.painted(other, color).pixels[i] by {
        lemma_place_coordinates(s, i);
        assert(region(i % w, i / w) <==> other(i % w, i / w));
    }
    assert(s.painted(region, color).pixels =~= s.painted(other, color).pixels);
}

/// Painting nothing changes nothing.
pub proof fn lemma_paint_nothing(s: CanvasState, region: spec_fn(int, int) -> bool, color: Color)
    requires
        s.pixels.len() == s.width * s.height,
        forall|a: int, b: int| s.in_bounds(a, b) ==> !#[trigger] region(a, b),
    ensures
        s.painted(region, color) == s,
{
    let w = s.width as int;
    assert forall|i: int| 0 <= i < s.pixels.len() implies s.painted(region, color).pixels[i]
        == s.pixels[i] by {
        lemma_place_coordinates(s, i);
        assert(!region(i % w, i / w));
    }
    assert(s.painted(region, color).pixels =~= s.pixels);
}

} // verus!
