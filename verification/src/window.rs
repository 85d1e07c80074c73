//! The state of the keyboard and of the mouse, frame by frame.

pub mod event;

use vstd::prelude::*;
use crate::math::vector::{Vec2, fits_i32};
use crate::window::event::{Key, MouseButton};

verus! {

/// Which mouse buttons are down in this frame and were down in the last,
/// and where the pointer is and was.
pub struct MouseManager {
    current: [bool; 5],
    previous: [bool; 5],
    position: Vec2,
    prev_position: Vec2,
}

impl MouseManager {
    /// Whether `button` is down in this frame.
    pub closed spec fn down(&self, button: MouseButton) -> bool {
        self.current@[button.ordinal()]
    }

    /// Whether `button` was down in the last frame.
    pub closed spec fn was_down(&self, button: MouseButton) -> bool {
        self.previous@[button.ordinal()]
    }

    /// Where the pointer is.
    pub closed spec fn position(&self) -> Vec2 {
        self.position
    }

    /// Where the pointer was before it was last set.
    pub closed spec fn last_position(&self) -> Vec2 {
        self.prev_position
    }

    /// No button is or was down, and the pointer rests at `mouse_pos`.
    pub fn new(mouse_pos: Vec2) -> (m: MouseManager)
        ensures
            forall|button: MouseButton| !m.down(button) && !m.was_down(button),
            m.position() == mouse_pos,
            m.last_position() == mouse_pos,
    {
        MouseManager {
            current: [false; 5],
            previous: [false; 5],
            position: mouse_pos,
            prev_position: mouse_pos,
        }
    }

    /// Ends the frame: what is down now is what was down in the last
    /// frame.
    pub fn update(&mut self)
        ensures
            forall|button: MouseButton|
                final(self).down(button) == old(self).down(button) && final(self).was_down(button)
                    == old(self).down(button),
            final(self).position() == old(self).position(),
            final(self).last_position() == old(self).last_position(),
    {
        self.previous = self.current;
    }

    /// Records whether `button` is down.
    pub fn set(&mut self, button: MouseButton, pressed: bool)
        ensures
            final(self).down(button) == pressed,
            forall|other: MouseButton| other != button ==> final(self).down(other) == old(self).down(other),
            forall|other: MouseButton| final(self).was_down(other) == old(self).was_down(other),
            final(self).position() == old(self).position(),
            final(self).last_position() == old(self).last_position(),
    {
        let i = button.index();
        self.current[i] = pressed;
    }

    /// Whether `button` is down.
    pub fn is_pressed(&self, button: MouseButton) -> (b: bool)
        ensures
            b == self.down(button),
    {
        self.current[button.index()]
    }

    /// Whether `button` went down in this frame.
    pub fn just_pressed(&self, button: MouseButton) -> (b: bool)
        ensures
            b == (self.down(button) && !self.was_down(button)),
    {
        self.current[button.index()] && !self.previous[button.index()]
    }

    /// Whether `button` went up in this frame.
    pub fn just_released(&self, button: MouseButton) -> (b: bool)
        ensures
            b == (!self.down(button) && self.was_down(button)),
    {
        !self.current[button.index()] && self.previous[button.index()]
    }

    /// Moves the pointer to `pos`, and remembers where it was.
    pub fn set_pos(&mut self, pos: Vec2)
        ensures
            final(self).position() == pos,
            final(self).last_position() == old(self).position(),
            forall|button: MouseButton|
                final(self).down(button) == old(self).down(button) && final(self).was_down(button)
                    == old(self).was_down(button),
    {
        self.prev_position = self.position;
        self.position = pos;
    }

    /// Takes in what the window reports at the start of a frame: where
    /// the pointer is, and which of the left, right and middle buttons are
    /// down. The other buttons stay as they are.
    pub fn begin_frame(&mut self, pos: Vec2, left: bool, right: bool, middle: bool)
        ensures
            final(self).position() == pos,
            final(self).last_position() == old(self).position(),
            final(self).down(MouseButton::Left) == left,
            final(self).down(MouseButton::Right) == right,
            final(self).down(MouseButton::Middle) == middle,
            final(self).down(MouseButton::Back) == old(self).down(MouseButton::Back),
            final(self).down(MouseButton::Forward) == old(self).down(MouseButton::Forward),
            forall|button: MouseButton| final(self).was_down(button) == old(self).was_down(button),
    {
        self.set_pos(pos);
        self.set(MouseButton::Left, left);
        self.set(MouseButton::Right, right);
        self.set(MouseButton::Middle, middle);
    }

    /// Where the pointer is.
    pub fn pos(&self) -> (p: Vec2)
        ensures
            p == self.position(),
    {
        self.position
    }

    /// Where the pointer was before it was last set.
    pub fn last_pos(&self) -> (p: Vec2)
        ensures
            p == self.last_position(),
    {
        self.prev_position
    }

    /// How far the pointer moved when it was last set.
    pub fn delta(&self) -> (d: Vec2)
        requires
            fits_i32(self.position().x - self.last_position().x),
            fits_i32(self.position().y - self.last_position().y),
        ensures
            d.x == self.position().x - self.last_position().x,
            d.y == self.position().y - self.last_position().y,
    {
        self.position - self.prev_position
    }
}

/// Which keys are down in this frame and were down in the last.
pub struct KeyboardManager {
    current: [bool; 107],
    previous: [bool; 107],
}

impl KeyboardManager {
    /// Whether `key` is down in this frame.
    pub closed spec fn down(&self, key: Key) -> bool {
        self.current@[key.ordinal()]
    }

    /// Whether `key` was down in the last frame.
    pub closed spec fn was_down(&self, key: Key) -> bool {
        self.previous@[key.ordinal()]
    }

    /// No key is or was down.
    pub fn new() -> (k: KeyboardManager)
        ensures
            forall|key: Key| !k.down(key) && !k.was_down(key),
    {
        KeyboardManager { current: [false; 107], previous: [false; 107] }
    }

    /// Ends the frame: what is down now is what was down in the last
    /// frame.
    pub fn update(&mut self)
        ensures
            forall|key: Key|
                final(self).down(key) == old(self).down(key) && final(self).was_down(key) == old(
                    self,
                ).down(key),
    {
        self.previous = self.current;
    }

    /// Records whether `key` is down.
    pub fn set(&mut self, key: Key, pressed: bool)
        ensures
            final(self).down(key) == pressed,
            forall|other: Key| other != key ==> final(self).down(other) == old(self).down(other),
            forall|other: Key| final(self).was_down(other) == old(self).was_down(other),
    {
        let i = key.index();
        self.current[i] = pressed;
    }

    /// Whether the frame loop goes on: the window is still open, and `Q`
    /// is not down.
    pub fn keeps_running(&self, window_open: bool) -> (go: bool)
        ensures
            go == (window_open && !self.down(Key::Q)),
    {
        window_open && !self.is_pressed(Key::Q)
    }

    /// Whether `key` is down.
    pub fn is_pressed(&self, key: Key) -> (b: bool)
        ensures
            b == self.down(key),
    {
        self.current[key.index()]
    }

    /// Whether `key` went down in this frame.
    pub fn just_pressed(&self, key: Key) -> (b: bool)
        ensures
            b == (self.down(key) && !self.was_down(key)),
    {
        self.current[key.index()] && !self.previous[key.index()]
    }

    /// Whether `key` went up in this frame.
    pub fn just_released(&self, key: Key) -> (b: bool)
        ensures
            b == (!self.down(key) && self.was_down(key)),
    {
        !self.current[key.index()] && self.previous[key.index()]
    }
}

} // verus!
