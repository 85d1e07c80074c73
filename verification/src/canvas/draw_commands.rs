//! Drawing commands: a shape bound to its options, ready to be moved by a
//! transform and painted onto a canvas.

pub mod line;
pub mod circle;
pub mod background;
pub mod marker;
pub mod image;

use vstd::prelude::*;
use vstd::view::View as _;
use crate::color::Color;
use crate::canvas::{Canvas, CanvasImpl, CanvasState, Coloring};
use crate::math::transform::{Transform, Transform2D};
use crate::canvas::draw_commands::marker::Marker;

verus! {

/// A unit of drawing work: it can be moved by a transform, and it can
/// paint itself onto a canvas.
pub trait Command: Transform {
    /// Whether the command is fit to be painted.
    spec fn renderable(&self) -> bool;

    /// The canvas that painting `self` onto `before` gives.
    spec fn rendered(&self, before: CanvasState) -> CanvasState;

    /// Painting changes neither the size nor the view of a canvas.
    proof fn lemma_rendered_keeps_frame(&self, before: CanvasState)
        requires
            before.wf(),
        ensures
            self.rendered(before).width == before.width,
            self.rendered(before).height == before.height,
            self.rendered(before).view == before.view,
    ;

    /// Paints `self` onto `canvas`.
    fn render_canvas(&mut self, canvas: &mut CanvasImpl)
        requires
            old(self).renderable(),
            old(canvas).wf(),
        ensures
            final(canvas).wf(),
            final(canvas)@ == old(self).rendered(old(canvas)@),
    ;
}

/// A command that can wait in a marker queue: it can be turned into a
/// marker that is moved and painted as the command itself is.
pub trait CloneCommand: Command {
    /// The marker that stands for `self`.
    spec fn as_marker(&self) -> Marker;

    /// A copy of `self`, fit for a marker queue.
    fn box_clone(&self) -> (marker: Marker)
        ensures
            marker == self.as_marker(),
    ;

    /// The marker paints what the command paints.
    proof fn lemma_marker_renders_alike(&self, before: CanvasState)
        ensures
            self.as_marker().rendered(before) == self.rendered(before),
    ;

    /// Where the command can be moved, its marker can.
    proof fn lemma_marker_transformable(&self, t: &Transform2D)
        requires
            self.transformable(t),
        ensures
            self.as_marker().transformable(t),
    ;

    /// Moving the marker is moving the command.
    proof fn lemma_marker_moves_alike(&self, t: &Transform2D, image: &Self)
        requires
            self.transforms_to(t, image),
        ensures
            self.as_marker().transformed(t) == image.as_marker(),
    ;
}

/// A shape that can be drawn: together with its options it makes a
/// command.
pub trait DrawCommand: Sized {
    /// What the shape is drawn with.
    type Options;

    /// The command that the shape makes.
    type Command: Command;

    /// Whether the shape can be drawn with `options`.
    spec fn drawable(&self, options: &Self::Options) -> bool;

    /// Whether `command` is the command that the shape makes with
    /// `options`.
    spec fn builds(&self, options: &Self::Options, command: &Self::Command) -> bool;

    /// Binds the shape to its options.
    fn into_renderable(self, options: Self::Options) -> (command: Self::Command)
        requires
            self.drawable(&options),
        ensures
            self.builds(&options, &command),
    ;
}

/// The pixels of row `y` from column `x0` up to, not including, `x1`, as
/// a row-span access hands them out: all of them where the first and the
/// last lie on the canvas, and none otherwise.
pub open spec fn span_region(s: CanvasState, x0: int, x1: int, y: int) -> spec_fn(int, int) -> bool {
    |a: int, b: int| b == y && x0 <= a < x1 && s.in_bounds(x0, y) && s.in_bounds(x1 - 1, y)
}

/// The pixel `(x, y)` alone.
pub open spec fn point_region(x: int, y: int) -> spec_fn(int, int) -> bool {
    |a: int, b: int| a == x && b == y
}

/// Sets the pixel `(x, y)` of `canvas` to `color`, if the canvas has it.
pub(crate) fn plot(canvas: &mut CanvasImpl, x: i64, y: i64, color: Color)
    requires
        old(canvas).wf(),
    ensures
        final(canvas).wf(),
        final(canvas)@ == (if old(canvas)@.in_bounds(x as int, y as int) {
            old(canvas)@.with_color_at(old(canvas)@.offset(x as int, y as int), color)
        } else {
            old(canvas)@
        }),
        final(canvas)@ == old(canvas)@.painted(point_region(x as int, y as int), color),
{
    proof {
        let s = canvas@;
        crate::canvas::state::lemma_paint_nothing(s, |a: int, b: int| false, color);
        crate::canvas::state::lemma_paint_one_more(
            s,
            |a: int, b: int| false,
            point_region(x as int, y as int),
            color,
            x as int,
            y as int,
        );
    }
    if -0x8000_0000 <= x && x <= 0x7FFF_FFFF && -0x8000_0000 <= y && y <= 0x7FFF_FFFF {
        proof {
            if canvas@.in_bounds(x as int, y as int) {
                crate::canvas::state::lemma_offset_coordinates(canvas@, x as int, y as int);
            }
        }
        canvas.pixel_mut(x as i32, y as i32).color(color);
    }
}

/// Writing one color over a stretch of a row of the buffer is painting
/// the pixels of that stretch.
pub proof fn lemma_span_is_painted(s: CanvasState, x0: int, x1: int, y: int, color: Color)
    requires
        s.wf(),
        x0 <= x1,
        s.in_bounds(x0, y),
        s.in_bounds(x1 - 1, y),
    ensures
        s.with_span(s.offset(x0, y), s.offset(x1, y), Seq::new((x1 - x0) as nat, |i: int| color))
            == s.painted(span_region(s, x0, x1, y), color),
{
    let from = s.offset(x0, y);
    let to = s.offset(x1, y);
    let w = s.width as int;
    crate::canvas::state::lemma_offset_coordinates(s, x0, y);
    crate::canvas::state::lemma_offset_coordinates(s, x1 - 1, y);
    let spanned = s.with_span(from, to, Seq::new((x1 - x0) as nat, |i: int| color));
    let painted = s.painted(span_region(s, x0, x1, y), color);
    assert(spanned.pixels.len() == s.pixels.len());
    assert forall|i: int| 0 <= i < s.pixels.len() implies spanned.pixels[i] == painted.pixels[i] by {
        crate::canvas::state::lemma_place_coordinates(s, i);
        let a = i % w;
        let b = i / w;
        if from <= i < to {
            crate::canvas::state::lemma_offset_coordinates(s, x0 + (i - from), y);
            assert(a == x0 + (i - from) && b == y);
        } else {
            if b == y && x0 <= a < x1 {
                assert(s.offset(a, b) == i);
                assert(false);
            }
        }
    }
    assert(spanned.pixels =~= painted.pixels);
}

/// Sets the pixels of row `y` from column `x0` up to, not including,
/// `x1` to `color`, through the row-span access of the canvas.
pub(crate) fn fill_span(canvas: &mut CanvasImpl, x0: i64, x1: i64, y: i64, color: Color)
    requires
        old(canvas).wf(),
        x0 <= x1,
    ensures
        final(canvas).wf(),
        final(canvas)@ == old(canvas)@.painted(span_region(old(canvas)@, x0 as int, x1 as int, y as int), color),
{
    let ghost before = canvas@;
    if 0 <= x0 && x1 <= 0x7FFF_FFFF && 0 <= y && y <= 0x7FFF_FFFF {
        let ghost visible = before.in_bounds(x0 as int, y as int) && before.in_bounds(
            x1 - 1,
            y as int,
        );
        proof {
            if visible {
                lemma_span_is_painted(before, x0 as int, x1 as int, y as int, color);
                crate::canvas::state::lemma_offset_coordinates(before, x0 as int, y as int);
                crate::canvas::state::lemma_offset_coordinates(before, x1 - 1, y as int);
            } else {
                crate::canvas::state::lemma_paint_nothing(
                    before,
                    span_region(before, x0 as int, x1 as int, y as int),
                    color,
                );
            }
        }
        canvas.pixels_mut((x0 as i32)..(x1 as i32), y as i32).color(color);
    } else {
        proof {
            crate::canvas::state::lemma_paint_nothing(
                before,
                span_region(before, x0 as int, x1 as int, y as int),
                color,
            );
        }
    }
}

/// The pixels of the rows from `y0` up to, not including, `y1`, between
/// the columns `x0` and `x1`, as row-span accesses hand them out: a row
/// counts where its first and its last pixel lie on the canvas.
pub open spec fn block_region(s: CanvasState, x0: int, x1: int, y0: int, y1: int) -> spec_fn(
    int,
    int,
) -> bool {
    |a: int, b: int| y0 <= b < y1 && x0 <= a < x1 && s.in_bounds(x0, b) && s.in_bounds(x1 - 1, b)
}

/// Sets the pixels of the rows from `y0` up to, not including, `y1`,
/// between the columns `x0` and `x1`, to `color`, one row span at a time.
pub(crate) fn fill_block(canvas: &mut CanvasImpl, x0: i64, x1: i64, y0: i64, y1: i64, color: Color)
    requires
        old(canvas).wf(),
        x0 <= x1,
        y0 <= y1,
    ensures
        final(canvas).wf(),
        final(canvas)@ == old(canvas)@.painted(
            block_region(old(canvas)@, x0 as int, x1 as int, y0 as int, y1 as int),
            color,
        ),
{
    let ghost before = canvas@;
    let mut y: i64 = y0;
    proof {
        crate::canvas::state::lemma_paint_nothing(
            before,
            block_region(before, x0 as int, x1 as int, y0 as int, y0 as int),
            color,
        );
    }
    while y < y1
        invariant
            canvas.wf(),
            before.wf(),
            x0 <= x1,
            y0 <= y <= y1,
            canvas@ == before.painted(
                block_region(before, x0 as int, x1 as int, y0 as int, y as int),
                color,
            ),
        decreases y1 - y,
    {
        let ghost so_far = canvas@;
        fill_span(canvas, x0, x1, y, color);
        proof {
            assert forall|a: int, b: int| before.in_bounds(a, b) implies (#[trigger] block_region(
                before,
                x0 as int,
                x1 as int,
                y0 as int,
                y + 1,
            )(a, b) <==> block_region(before, x0 as int, x1 as int, y0 as int, y as int)(a, b)
                || span_region(so_far, x0 as int, x1 as int, y as int)(a, b)) by {}
            crate::canvas::state::lemma_paint_more(
                before,
                block_region(before, x0 as int, x1 as int, y0 as int, y as int),
                span_region(so_far, x0 as int, x1 as int, y as int),
                block_region(before, x0 as int, x1 as int, y0 as int, y + 1),
                color,
            );
        }
        y += 1;
    }
}

} // verus!
