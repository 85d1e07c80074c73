//! Filling the clip rectangle.

use vstd::prelude::*;
use vstd::view::View as _;
use crate::color::Color;
use crate::canvas::{Canvas, CanvasImpl, CanvasState};
use crate::canvas::draw_commands::{Command, CloneCommand, DrawCommand, fill_span, span_region};
use crate::canvas::draw_commands::marker::Marker;
use crate::math::shapes::rect::Rect;
use crate::math::transform::{Transform, Transform2D};

verus! {

/// The shape that stands for the whole clip rectangle of a canvas.
#[derive(Debug, Clone, Copy, PartialEq, Eq, Structural)]
pub struct Background;

/// What a background is drawn with: its color.
pub type BackgroundOptions = Color;

/// A background fill with its color.
#[derive(Debug, Clone, Copy, PartialEq, Eq, Structural)]
pub struct BackgroundCommand(pub BackgroundOptions);

/// The pixels of `clip` in the rows above `below`.
pub open spec fn clip_rows(clip: Rect, below: int) -> spec_fn(int, int) -> bool {
    |x: int, y: int| clip.contains(x, y) && y < below
}

/// The pixels of `clip`.
pub open spec fn clip_region(clip: Rect) -> spec_fn(int, int) -> bool {
    |x: int, y: int| clip.contains(x, y)
}

impl Transform for BackgroundCommand {
    open spec fn transformable(&self, t: &Transform2D) -> bool {
        true
    }

    open spec fn transforms_to(&self, t: &Transform2D, image: &BackgroundCommand) -> bool {
        *image == *self
    }

    /// A background has no place of its own: no transform moves it.
    fn transform(&mut self, transform: &Transform2D) {
    }
}

impl Command for BackgroundCommand {
    open spec fn renderable(&self) -> bool {
        true
    }

    open spec fn rendered(&self, before: CanvasState) -> CanvasState {
        before.painted(clip_region(before.view.clip), self.0)
    }

    proof fn lemma_rendered_keeps_frame(&self, before: CanvasState) {
    }

    /// Sets every pixel of the canvas that lies in its clip rectangle, row
    /// by row. Markers stay queued.
    fn render_canvas(&mut self, canvas: &mut CanvasImpl)
        ensures
            *final(self) == *old(self),
    {
        let color = self.0;
        let clip = canvas.current_view().clip;
        let (w, h) = canvas.size_i32();
        let left: i64 = clip.position.x as i64;
        let right: i64 = left + clip.size.x as i64;
        let top: i64 = clip.position.y as i64;
        let bottom: i64 = top + clip.size.y as i64;
        let x0: i64 = if left < 0 { 0 } else { left };
        let x1: i64 = if right > w as i64 { w as i64 } else { right };
        let y0: i64 = if top < 0 { 0 } else { top };
        let y1: i64 = if bottom > h as i64 { h as i64 } else { bottom };

        let ghost before = canvas@;
        if x0 >= x1 || y0 >= y1 {
            proof {
                crate::canvas::state::lemma_paint_nothing(before, clip_region(clip), color);
            }
            return ;
        }
        let mut y: i64 = y0;
        proof {
            crate::canvas::state::lemma_paint_nothing(before, clip_rows(clip, y as int), color);
        }
        while y < y1
            invariant
                canvas.wf(),
                before.wf(),
                before.view.clip == clip,
                left == clip.left(),
                right == clip.right(),
                top == clip.top(),
                bottom == clip.bottom(),
                0 <= x0 < x1 <= before.width,
                0 <= y0 <= y <= y1 <= before.height,
                x0 == (if left < 0 { 0 } else { left }),
                x1 == (if right > before.width { before.width as int } else { right as int }),
                y0 == (if top < 0 { 0 } else { top }),
                y1 == (if bottom > before.height { before.height as int } else { bottom as int }),
                canvas@ == before.painted(clip_rows(clip, y as int), color),
            decreases y1 - y,
        {
            let ghost so_far = canvas@;
            fill_span(canvas, x0, x1, y, color);
            proof {
                assert forall|a: int, b: int| before.in_bounds(a, b) implies (#[trigger] clip_rows(
                    clip,
                    y + 1,
                )(a, b) <==> clip_rows(clip, y as int)(a, b) || span_region(
                    so_far,
                    x0 as int,
                    x1 as int,
                    y as int,
                )(a, b)) by {}
                crate::canvas::state::lemma_paint_more(
                    before,
                    clip_rows(clip, y as int),
                    span_region(so_far, x0 as int, x1 as int, y as int),
                    clip_rows(clip, y + 1),
                    color,
                );
            }
            y += 1;
        }
        proof {
            assert forall|a: int, b: int| before.in_bounds(a, b) implies (#[trigger] clip_region(
                clip,
            )(a, b) <==> clip_rows(clip, y as int)(a, b) || false) by {}
            crate::canvas::state::lemma_paint_more(
                before,
                clip_rows(clip, y as int),
                |a: int, b: int| false,
                clip_region(clip),
                color,
            );
            crate::canvas::state::lemma_paint_nothing(
                before.painted(clip_rows(clip, y as int), color),
                |a: int, b: int| false,
                color,
            );
        }
    }
}

impl CloneCommand for BackgroundCommand {
    open spec fn as_marker(&self) -> Marker {
        Marker::Background(*self)
    }

    fn box_clone(&self) -> (marker: Marker) {
        Marker::Background(*self)
    }

    proof fn lemma_marker_renders_alike(&self, before: CanvasState) {
    }

    proof fn lemma_marker_transformable(&self, t: &Transform2D) {
    }

    proof fn lemma_marker_moves_alike(&self, t: &Transform2D, image: &BackgroundCommand) {
    }
}

impl DrawCommand for Background {
    type Options = BackgroundOptions;

    type Command = BackgroundCommand;

    open spec fn drawable(&self, options: &BackgroundOptions) -> bool {
        true
    }

    open spec fn builds(&self, options: &BackgroundOptions, command: &BackgroundCommand) -> bool {
        *command == BackgroundCommand(*options)
    }

    fn into_renderable(self, options: BackgroundOptions) -> (command: BackgroundCommand) {
        BackgroundCommand(options)
    }
}

/// After a background fill every pixel of the canvas that lies in the
/// clip rectangle has the fill color, and every other pixel is as it was.
pub proof fn lemma_background_pixel(command: BackgroundCommand, before: CanvasState, x: int, y: int)
    requires
        before.wf(),
        before.in_bounds(x, y),
    ensures
        command.rendered(before).pixel(x, y) == (if before.view.clip.contains(x, y) {
            Some(command.0)
        } else {
            before.pixel(x, y)
        }),
        command.rendered(before).markers == before.markers,
        command.rendered(before).view == before.view,
{
    crate::canvas::state::lemma_painted_pixel(before, clip_region(before.view.clip), command.0, x, y);
}

} // verus!
