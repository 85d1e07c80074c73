//! A borrowed canvas with a view of its own.

use vstd::prelude::*;
use vstd::view::View as _;
use crate::color::Color;
use crate::canvas::{Canvas, CanvasGeneric, CanvasImpl, CanvasState, Context, view_takes};
use crate::canvas::draw_commands::{Command, CloneCommand, DrawCommand};
use crate::canvas::draw_commands::line::LineOptions;
use crate::canvas::draw_commands::circle::CircleOption;
use crate::canvas::draw_commands::background::{Background, BackgroundOptions};
use crate::canvas::draw_commands::image::ImageOption;
use crate::math::vector::Vec2;
use crate::math::shapes::line::Line;
use crate::math::shapes::circle::Circle;
use crate::canvas::draw_commands::marker::Marker;
use crate::math::shapes::rect::Rect;
use crate::math::transform::Transform;

verus! {

/// A canvas borrowed for drawing, seen through a view that belongs to the
/// borrower: what is drawn through the context is moved by the transform
/// of that view, and a background fill covers its clip rectangle. The view
/// of the canvas itself is left as it is.
#[derive(Debug)]
pub struct ContextImpl<'a> {
    pub canvas: &'a mut CanvasImpl,
    pub view: crate::canvas::View,
}

impl<'a> vstd::view::View for ContextImpl<'a> {
    type V = CanvasState;

    open spec fn view(&self) -> CanvasState {
        self.canvas@.with_view(self.view)
    }
}

impl<'a> ContextImpl<'a> {
    /// A context on `canvas` whose clip rectangle is the whole canvas and
    /// which has no transform.
    pub fn new_canvas(canvas: &'a mut CanvasImpl) -> (context: ContextImpl<'a>)
        requires
            old(canvas).wf(),
        ensures
            *context.canvas == *old(canvas),
            *final(context.canvas) == *final(canvas),
            context.view == (crate::canvas::View { clip: old(canvas)@.full_clip(), transform: None }),
    {
        let (w, h) = canvas.size_i32();
        let clip = Rect::new(0, 0, w, h);
        ContextImpl { canvas, view: crate::canvas::View { clip, transform: None } }
    }
}

impl<'a> Canvas for ContextImpl<'a> {
    fn size(&self) -> (r: (usize, usize)) {
        self.canvas.size()
    }

    fn size_i32(&self) -> (r: (i32, i32)) {
        self.canvas.size_i32()
    }

    fn index(&self, x: i32, y: i32) -> (r: Option<usize>) {
        self.canvas.index(x, y)
    }

    fn buffer(&self) -> (r: &[Color]) {
        self.canvas.buffer()
    }

    fn buffer_mut(&mut self) -> (r: &mut [Color])
        ensures
            final(self).view == old(self).view,
            *final(final(self).canvas) == *final(old(self).canvas),
    {
        self.canvas.buffer_mut()
    }

    fn pixels(&self, x: core::ops::Range<i32>, y: i32) -> (r: Option<&[Color]>) {
        self.canvas.pixels(x, y)
    }

    fn pixels_mut(&mut self, x: core::ops::Range<i32>, y: i32) -> (r: Option<&mut [Color]>)
        ensures
            final(self).view == old(self).view,
            *final(final(self).canvas) == *final(old(self).canvas),
    {
        self.canvas.pixels_mut(x, y)
    }

    fn pixel(&self, x: i32, y: i32) -> (r: Option<Color>) {
        self.canvas.pixel(x, y)
    }

    fn pixel_mut(&mut self, x: i32, y: i32) -> (r: Option<&mut Color>)
        ensures
            final(self).view == old(self).view,
            *final(final(self).canvas) == *final(old(self).canvas),
    {
        self.canvas.pixel_mut(x, y)
    }

    fn markers(&self) -> (r: &Vec<Marker>) {
        self.canvas.markers()
    }

    fn markers_mut(&mut self) -> (r: &mut Vec<Marker>)
        ensures
            final(self).view == old(self).view,
            *final(final(self).canvas) == *final(old(self).canvas),
    {
        self.canvas.markers_mut()
    }

    /// The command is painted as the view of the context says; the view of
    /// the canvas itself is put back afterwards.
    fn draw_dyn<T: Command>(&mut self, command: &mut T)
        ensures
            final(self).view == old(self).view,
            final(self).canvas@.view == old(self).canvas@.view,
            *final(final(self).canvas) == *final(old(self).canvas),
    {
        match self.view.transform {
            Some(transform) => {
                command.transform(&transform);
            },
            None => {},
        }
        let ghost placed = *command;
        assert(view_takes(old(self)@.view, old(command), &placed));
        let saved = *self.canvas.current_view();
        *self.canvas.view_mut() = self.view;
        proof {
            placed.lemma_rendered_keeps_frame(self.canvas@);
        }
        command.render_canvas(self.canvas);
        *self.canvas.view_mut() = saved;
    }

    fn marker_dyn(&mut self, marker: Marker)
        ensures
            final(self).view == old(self).view,
            *final(final(self).canvas) == *final(old(self).canvas),
    {
        let mut marker = marker;
        match self.view.transform {
            Some(transform) => {
                marker.transform(&transform);
            },
            None => {},
        }
        self.canvas.markers_mut().push(marker);
    }

    /// The new context borrows the same canvas, and has a fresh view.
    fn get_context(&mut self) -> (context: ContextImpl<'_>)
        ensures
            final(self).view == old(self).view,
            *context.canvas == *old(self).canvas,
            *final(context.canvas) == *final(self).canvas,
            *final(final(self).canvas) == *final(old(self).canvas),
    {
        ContextImpl::new_canvas(&mut *self.canvas)
    }

    /// The markers are painted as the view of the context says; the view
    /// of the canvas itself is put back afterwards.
    fn render_markers(&mut self)
        ensures
            final(self).view == old(self).view,
            final(self).canvas@.view == old(self).canvas@.view,
            *final(final(self).canvas) == *final(old(self).canvas),
    {
        let saved = *self.canvas.current_view();
        *self.canvas.view_mut() = self.view;
        proof {
            crate::canvas::lemma_replay_keeps_frame(
                self.canvas@.markers,
                self.canvas@.with_markers(Seq::<Marker>::empty()),
            );
        }
        self.canvas.render_markers();
        *self.canvas.view_mut() = saved;
    }
}

impl<'a> Context for ContextImpl<'a> {
    fn view_mut(&mut self) -> (r: &mut crate::canvas::View)
        ensures
            *final(final(self).canvas) == *final(old(self).canvas),
            *final(self).canvas == *old(self).canvas,
    {
        &mut self.view
    }
}

impl<'a> CanvasGeneric for ContextImpl<'a> {
    fn draw<T: DrawCommand>(&mut self, shape: T, options: T::Options)
        ensures
            final(self).view == old(self).view,
            final(self).canvas@.view == old(self).canvas@.view,
            *final(final(self).canvas) == *final(old(self).canvas),
    {
        let mut command = shape.into_renderable(options);
        self.draw_dyn(&mut command);
    }

    fn marker<T: DrawCommand>(&mut self, shape: T, options: T::Options) where
        T::Command: CloneCommand,

        ensures
            final(self).view == old(self).view,
            *final(final(self).canvas) == *final(old(self).canvas),
    {
        let command = shape.into_renderable(options);
        let marker = command.box_clone();
        proof {
            if let Some(t) = self@.view.transform {
                command.lemma_marker_transformable(&t);
            }
        }
        self.marker_dyn(marker);
    }

    fn background(&mut self, color: BackgroundOptions)
        ensures
            final(self).view == old(self).view,
            final(self).canvas@.view == old(self).canvas@.view,
            *final(final(self).canvas) == *final(old(self).canvas),
    {
        let mut command = Background.into_renderable(color);
        self.draw_dyn(&mut command);
    }

    fn line(&mut self, x1: i32, y1: i32, x2: i32, y2: i32, options: LineOptions)
        ensures
            final(self).view == old(self).view,
            final(self).canvas@.view == old(self).canvas@.view,
            *final(final(self).canvas) == *final(old(self).canvas),
    {
        let mut command = Line::new(x1, y1, x2, y2).into_renderable(options);
        self.draw_dyn(&mut command);
    }

    fn image(&mut self, image: &CanvasImpl, x: i32, y: i32, scale: i32)
        ensures
            final(self).view == old(self).view,
            final(self).canvas@.view == old(self).canvas@.view,
            *final(final(self).canvas) == *final(old(self).canvas),
    {
        let options = ImageOption::from(Vec2::new(x, y)).scaling(scale);
        let mut command = image.into_renderable(options);
        self.draw_dyn(&mut command);
    }

    fn circle(&mut self, x: i32, y: i32, radius: i32, options: CircleOption)
        ensures
            final(self).view == old(self).view,
            final(self).canvas@.view == old(self).canvas@.view,
            *final(final(self).canvas) == *final(old(self).canvas),
    {
        let mut command = Circle::new(x, y, radius).into_renderable(options);
        self.draw_dyn(&mut command);
    }
}

} // verus!
