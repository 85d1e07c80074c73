//! Commands that can wait in a canvas's marker queue.

use vstd::prelude::*;
use crate::canvas::{CanvasImpl, CanvasState};
use crate::canvas::draw_commands::{Command, CloneCommand};
use crate::canvas::draw_commands::line::LineCommand;
use crate::canvas::draw_commands::circle::CircleCommand;
use crate::canvas::draw_commands::background::BackgroundCommand;
use crate::math::transform::{Transform, Transform2D};

verus! {

/// A queued command: any of the commands that are plain values, and so can
/// be copied when a canvas is blitted into another.
#[derive(Debug, Clone, Copy, PartialEq, Eq, Structural)]
pub enum Marker {
    Line(LineCommand),
    Circle(CircleCommand),
    Background(BackgroundCommand),
}

impl Marker {
    /// The image of `self` under `t`: that of the command it holds.
    pub open spec fn transformed(&self, t: &Transform2D) -> Marker {
        match *self {
            Marker::Line(command) => Marker::Line(command.transformed(t)),
            Marker::Circle(command) => Marker::Circle(command.transformed(t)),
            Marker::Background(command) => Marker::Background(command),
        }
    }
}

impl Transform for Marker {
    open spec fn transformable(&self, t: &Transform2D) -> bool {
        match *self {
            Marker::Line(command) => command.transformable(t),
            Marker::Circle(command) => command.transformable(t),
            Marker::Background(command) => true,
        }
    }

    open spec fn transforms_to(&self, t: &Transform2D, image: &Marker) -> bool {
        *image == self.transformed(t)
    }

    fn transform(&mut self, transform: &Transform2D) {
        match self {
            Marker::Line(command) => command.transform(transform),
            Marker::Circle(command) => command.transform(transform),
            Marker::Background(command) => command.transform(transform),
        }
    }
}

impl Command for Marker {
    open spec fn renderable(&self) -> bool {
        true
    }

    open spec fn rendered(&self, before: CanvasState) -> CanvasState {
        match *self {
            Marker::Line(command) => command.rendered(before),
            Marker::Circle(command) => command.rendered(before),
            Marker::Background(command) => command.rendered(before),
        }
    }

    proof fn lemma_rendered_keeps_frame(&self, before: CanvasState) {
    }

    fn render_canvas(&mut self, canvas: &mut CanvasImpl)
        ensures
            *final(self) == *old(self),
    {
        match self {
            Marker::Line(command) => command.render_canvas(canvas),
            Marker::Circle(command) => command.render_canvas(canvas),
            Marker::Background(command) => command.render_canvas(canvas),
        }
    }
}

impl CloneCommand for Marker {
    open spec fn as_marker(&self) -> Marker {
        *self
    }

    fn box_clone(&self) -> (marker: Marker) {
        *self
    }

    proof fn lemma_marker_renders_alike(&self, before: CanvasState) {
    }

    proof fn lemma_marker_transformable(&self, t: &Transform2D) {
    }

    proof fn lemma_marker_moves_alike(&self, t: &Transform2D, image: &Marker) {
    }
}

} // verus!
