//! The names that most users of the library need.

pub use crate::math::numeric::{Number, Integer, Signed, Unsigned, One, Zero};

pub use crate::math::vector::Vec2;
pub use crate::math::shapes::line::Line;
pub use crate::math::shapes::rect::Rect;
pub use crate::math::shapes::triangle::Triangle;
pub use crate::math::shapes::circle::Circle;
pub use crate::math::transform::{Transformer, Transform2D, Transform};

pub use crate::canvas::{Canvas, CanvasGeneric, CanvasImpl, Context, ContextGeneric, Render, Coloring};
pub use crate::canvas::context::ContextImpl;
pub use crate::color::{Color, TRANSPARENT, WHITE, RED, GRAY, BLACK};
pub use crate::canvas::draw_commands::line::LineOption;
pub use crate::canvas::draw_commands::circle::CircleOptionTrait;

pub use crate::window::event::{Event, MouseButton, MouseEvent, MouseMoveEvent, MouseWheelEvent, KeyDownEvent, KeyModifiers, Key};
