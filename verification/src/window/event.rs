//! Input events and the keys, buttons and modifiers they speak of.

use vstd::prelude::*;
use crate::math::vector::Vec2;

verus! {

/// Something that happened in the window.
#[derive(Debug, Clone, Copy)]
pub enum Event {
    KeyDown(KeyDownEvent),
    MouseDown(MouseEvent),
    MouseMove(MouseMoveEvent),
    MouseUp(MouseEvent),
    MouseWheel(MouseWheelEvent),
    Quit,
}

/// A button of the mouse.
#[derive(Debug, Clone, Copy, PartialEq, Eq, Structural)]
pub enum MouseButton {
    Left,
    Right,
    Middle,
    Back,
    Forward,
}

/// The number of mouse buttons.
pub const MOUSE_BUTTONS: usize = 5;

impl MouseButton {
    /// The place of the button among the buttons, in the order of their
    /// declaration.
    pub open spec fn ordinal(self) -> int {
        match self {
            MouseButton::Left => 0,
            MouseButton::Right => 1,
            MouseButton::Middle => 2,
            MouseButton::Back => 3,
            MouseButton::Forward => 4,
        }
    }

    /// The place of the button among the buttons.
    pub fn index(self) -> (i: usize)
        ensures
            i == self.ordinal(),
            i < MOUSE_BUTTONS,
    {
        match self {
            MouseButton::Left => 0,
            MouseButton::Right => 1,
            MouseButton::Middle => 2,
            MouseButton::Back => 3,
            MouseButton::Forward => 4,
        }
    }
}

/// A mouse button went down or up.
#[derive(Debug, Clone, Copy)]
pub struct MouseEvent {
    pub position: Vec2,
    pub button: MouseButton,
}

/// The mouse moved.
#[derive(Debug, Clone, Copy)]
pub struct MouseMoveEvent {
    pub position: Vec2,
    pub delta: Vec2,
}

/// The mouse wheel turned.
#[derive(Debug, Clone, Copy)]
pub struct MouseWheelEvent {
    pub position: Vec2,
    pub direction: bool,
}

/// A key went down.
#[derive(Debug, Clone, Copy)]
pub struct KeyDownEvent {
    pub repeat: bool,
    pub char: Option<char>,
    pub key: Key,
    pub physical_key: Key,
    pub modifiers: KeyModifiers,
}

/// The modifier keys that are held, one bit each.
#[derive(Debug, Clone, Copy, Default)]
pub struct KeyModifiers {
    pub bits: u16,
}

impl KeyModifiers {
    /// Left shift: bit 0.
    pub const L_SHIFT: u16 = 0x0001;

    /// Right shift: bit 1.
    pub const R_SHIFT: u16 = 0x0002;

    /// Left control: bit 2.
    pub const L_CTRL: u16 = 0x0004;

    /// Right control: bit 3.
    pub const R_CTRL: u16 = 0x0008;

    /// Left alt: bit 4.
    pub const L_ALT: u16 = 0x0010;

    /// Right alt: bit 5.
    pub const R_ALT: u16 = 0x0020;

    /// Left command: bit 6.
    pub const L_CMD: u16 = 0x0040;

    /// Right command: bit 7.
    pub const R_CMD: u16 = 0x0080;

    /// Num lock: bit 8.
    pub const NUM_LOCK: u16 = 0x0100;

    /// Caps lock: bit 9.
    pub const CAPS_LOCK: u16 = 0x0200;

    /// Whether any bit of `mask` is set.
    pub open spec fn holds(self, mask: u16) -> bool {
        self.bits & mask != 0
    }

    /// The modifiers with exactly the given bits.
    pub fn new(bits: u16) -> (m: KeyModifiers)
        ensures
            m.bits == bits,
    {
        KeyModifiers { bits }
    }

    /// All the bits.
    pub fn bits(&self) -> (b: u16)
        ensures
            b == self.bits,
    {
        self.bits
    }

    /// Whether left shift is held.
    pub fn l_shift(&self) -> (held: bool)
        ensures
            held == self.holds(0x0001),
    {
        self.bits & Self::L_SHIFT != 0
    }

    /// Whether right shift is held.
    pub fn r_shift(&self) -> (held: bool)
        ensures
            held == self.holds(0x0002),
    {
        self.bits & Self::R_SHIFT != 0
    }

    /// Whether left control is held.
    pub fn l_ctrl(&self) -> (held: bool)
        ensures
            held == self.holds(0x0004),
    {
        self.bits & Self::L_CTRL != 0
    }

    /// Whether right control is held.
    pub fn r_ctrl(&self) -> (held: bool)
        ensures
            held == self.holds(0x0008),
    {
        self.bits & Self::R_CTRL != 0
    }

    /// Whether left alt is held.
    pub fn l_alt(&self) -> (held: bool)
        ensures
            held == self.holds(0x0010),
    {
        self.bits & Self::L_ALT != 0
    }

    /// Whether right alt is held.
    pub fn r_alt(&self) -> (held: bool)
        ensures
            held == self.holds(0x0020),
    {
        self.bits & Self::R_ALT != 0
    }

    /// Whether left command is held.
    pub fn l_cmd(&self) -> (held: bool)
        ensures
            held == self.holds(0x0040),
    {
        self.bits & Self::L_CMD != 0
    }

    /// Whether right command is held.
    pub fn r_cmd(&self) -> (held: bool)
        ensures
            held == self.holds(0x0080),
    {
        self.bits & Self::R_CMD != 0
    }

    /// Whether num lock is held.
    pub fn num_lock(&self) -> (held: bool)
        ensures
            held == self.holds(0x0100),
    {
        self.bits & Self::NUM_LOCK != 0
    }

    /// Whether caps lock is held.
    pub fn caps_lock(&self) -> (held: bool)
        ensures
            held == self.holds(0x0200),
    {
        self.bits & Self::CAPS_LOCK != 0
    }

    /// Whether either shift key is held.
    pub fn shift(&self) -> (held: bool)
        ensures
            held == self.holds(0x0003),
            held == (self.holds(0x0001) || self.holds(0x0002)),
    {
        let bits: u16 = self.bits;
        assert((bits & 0x0003 != 0) == ((bits & 0x0001 != 0) || (bits & 0x0002 != 0))) by (bit_vector);
        self.l_shift() || self.r_shift()
    }

    /// Whether either control key is held.
    pub fn ctrl(&self) -> (held: bool)
        ensures
            held == self.holds(0x000C),
            held == (self.holds(0x0004) || self.holds(0x0008)),
    {
        let bits: u16 = self.bits;
        assert((bits & 0x000C != 0) == ((bits & 0x0004 != 0) || (bits & 0x0008 != 0))) by (bit_vector);
        self.l_ctrl() || self.r_ctrl()
    }

    /// Whether either alt key is held.
    pub fn alt(&self) -> (held: bool)
        ensures
            held == self.holds(0x0030),
            held == (self.holds(0x0010) || self.holds(0x0020)),
    {
        let bits: u16 = self.bits;
        assert((bits & 0x0030 != 0) == ((bits & 0x0010 != 0) || (bits & 0x0020 != 0))) by (bit_vector);
        self.l_alt() || self.r_alt()
    }

    /// Whether either command key is held.
    pub fn cmd(&self) -> (held: bool)
        ensures
            held == self.holds(0x00C0),
            held == (self.holds(0x0040) || self.holds(0x0080)),
    {
        let bits: u16 = self.bits;
        assert((bits & 0x00C0 != 0) == ((bits & 0x0040 != 0) || (bits & 0x0080 != 0))) by (bit_vector);
        self.l_cmd() || self.r_cmd()
    }
}

/// The number of keys.
pub const KEYS: usize = 107;

/// A key of the keyboard.
#[derive(Debug, Clone, Copy, PartialEq, Eq, Structural)]
pub enum Key {
    Key0,
    Key1,
    Key2,
    Key3,
    Key4,
    Key5,
    Key6,
    Key7,
    Key8,
    Key9,
    A,
    B,
    C,
    D,
    E,
    F,
    G,
    H,
    I,
    J,
    K,
    L,
    M,
    N,
    O,
    P,
    Q,
    R,
    S,
    T,
    U,
    V,
    W,
    X,
    Y,
    Z,
    F1,
    F2,
    F3,
    F4,
    F5,
    F6,
    F7,
    F8,
    F9,
    F10,
    F11,
    F12,
    F13,
    F14,
    F15,
    Down,
    Left,
    Right,
    Up,
    Apostrophe,
    Backquote,
    Backslash,
    Comma,
    Equal,
    LeftBracket,
    Minus,
    Period,
    RightBracket,
    Semicolon,
    Slash,
    Backspace,
    Delete,
    End,
    Enter,
    Escape,
    Home,
    Insert,
    Menu,
    PageDown,
    PageUp,
    Pause,
    Space,
    Tab,
    NumLock,
    CapsLock,
    ScrollLock,
    LeftShift,
    RightShift,
    LeftCtrl,
    RightCtrl,
    NumPad0,
    NumPad1,
    NumPad2,
    NumPad3,
    NumPad4,
    NumPad5,
    NumPad6,
    NumPad7,
    NumPad8,
    NumPad9,
    NumPadDot,
    NumPadSlash,
    NumPadAsterisk,
    NumPadMinus,
    NumPadPlus,
    NumPadEnter,
    LeftAlt,
    RightAlt,
    LeftSuper,
    RightSuper,
    /// Used when an unknown key has been pressed.
    Unknown,
}

impl Key {
    /// The place of the key among the keys, in the order of their
    /// declaration.
    pub open spec fn ordinal(self) -> int {
        match self {
            Key::Key0 => 0,
            Key::Key1 => 1,
            Key::Key2 => 2,
            Key::Key3 => 3,
            Key::Key4 => 4,
            Key::Key5 => 5,
            Key::Key6 => 6,
            Key::Key7 => 7,
            Key::Key8 => 8,
            Key::Key9 => 9,
            Key::A => 10,
            Key::B => 11,
            Key::C => 12,
            Key::D => 13,
            Key::E => 14,
            Key::F => 15,
            Key::G => 16,
            Key::H => 17,
            Key::I => 18,
            Key::J => 19,
            Key::K => 20,
            Key::L => 21,
            Key::M => 22,
            Key::N => 23,
            Key::O => 24,
            Key::P => 25,
            Key::Q => 26,
            Key::R => 27,
            Key::S => 28,
            Key::T => 29,
            Key::U => 30,
            Key::V => 31,
            Key::W => 32,
            Key::X => 33,
            Key::Y => 34,
            Key::Z => 35,
            Key::F1 => 36,
            Key::F2 => 37,
            Key::F3 => 38,
            Key::F4 => 39,
            Key::F5 => 40,
            Key::F6 => 41,
            Key::F7 => 42,
            Key::F8 => 43,
            Key::F9 => 44,
            Key::F10 => 45,
            Key::F11 => 46,
            Key::F12 => 47,
            Key::F13 => 48,
            Key::F14 => 49,
            Key::F15 => 50,
            Key::Down => 51,
            Key::Left => 52,
            Key::Right => 53,
            Key::Up => 54,
            Key::Apostrophe => 55,
            Key::Backquote => 56,
            Key::Backslash => 57,
            Key::Comma => 58,
            Key::Equal => 59,
            Key::LeftBracket => 60,
            Key::Minus => 61,
            Key::Period => 62,
            Key::RightBracket => 63,
            Key::Semicolon => 64,
            Key::Slash => 65,
            Key::Backspace => 66,
            Key::Delete => 67,
            Key::End => 68,
            Key::Enter => 69,
            Key::Escape => 70,
            Key::Home => 71,
            Key::Insert => 72,
            Key::Menu => 73,
            Key::PageDown => 74,
            Key::PageUp => 75,
            Key::Pause => 76,
            Key::Space => 77,
            Key::Tab => 78,
            Key::NumLock => 79,
            Key::CapsLock => 80,
            Key::ScrollLock => 81,
            Key::LeftShift => 82,
            Key::RightShift => 83,
            Key::LeftCtrl => 84,
            Key::RightCtrl => 85,
            Key::NumPad0 => 86,
            Key::NumPad1 => 87,
            Key::NumPad2 => 88,
            Key::NumPad3 => 89,
            Key::NumPad4 => 90,
            Key::NumPad5 => 91,
            Key::NumPad6 => 92,
            Key::NumPad7 => 93,
            Key::NumPad8 => 94,
            Key::NumPad9 => 95,
            Key::NumPadDot => 96,
            Key::NumPadSlash => 97,
            Key::NumPadAsterisk => 98,
            Key::NumPadMinus => 99,
            Key::NumPadPlus => 100,
            Key::NumPadEnter => 101,
            Key::LeftAlt => 102,
            Key::RightAlt => 103,
            Key::LeftSuper => 104,
            Key::RightSuper => 105,
            Key::Unknown => 106,
        }
    }

    /// The place of the key among the keys.
    pub fn index(self) -> (i: usize)
        ensures
            i == self.ordinal(),
            i < KEYS,
    {
        match self {
            Key::Key0 => 0,
            Key::Key1 => 1,
            Key::Key2 => 2,
            Key::Key3 => 3,
            Key::Key4 => 4,
            Key::Key5 => 5,
            Key::Key6 => 6,
            Key::Key7 => 7,
            Key::Key8 => 8,
            Key::Key9 => 9,
            Key::A => 10,
            Key::B => 11,
            Key::C => 12,
            Key::D => 13,
            Key::E => 14,
            Key::F => 15,
            Key::G => 16,
            Key::H => 17,
            Key::I => 18,
            Key::J => 19,
            Key::K => 20,
            Key::L => 21,
            Key::M => 22,
            Key::N => 23,
            Key::O => 24,
            Key::P => 25,
            Key::Q => 26,
            Key::R => 27,
            Key::S => 28,
            Key::T => 29,
            Key::U => 30,
            Key::V => 31,
            Key::W => 32,
            Key::X => 33,
            Key::Y => 34,
            Key::Z => 35,
            Key::F1 => 36,
            Key::F2 => 37,
            Key::F3 => 38,
            Key::F4 => 39,
            Key::F5 => 40,
            Key::F6 => 41,
            Key::F7 => 42,
            Key::F8 => 43,
            Key::F9 => 44,
            Key::F10 => 45,
            Key::F11 => 46,
            Key::F12 => 47,
            Key::F13 => 48,
            Key::F14 => 49,
            Key::F15 => 50,
            Key::Down => 51,
            Key::Left => 52,
            Key::Right => 53,
            Key::Up => 54,
            Key::Apostrophe => 55,
            Key::Backquote => 56,
            Key::Backslash => 57,
            Key::Comma => 58,
            Key::Equal => 59,
            Key::LeftBracket => 60,
            Key::Minus => 61,
            Key::Period => 62,
            Key::RightBracket => 63,
            Key::Semicolon => 64,
            Key::Slash => 65,
            Key::Backspace => 66,
            Key::Delete => 67,
            Key::End => 68,
            Key::Enter => 69,
            Key::Escape => 70,
            Key::Home => 71,
            Key::Insert => 72,
            Key::Menu => 73,
            Key::PageDown => 74,
            Key::PageUp => 75,
            Key::Pause => 76,
            Key::Space => 77,
            Key::Tab => 78,
            Key::NumLock => 79,
            Key::CapsLock => 80,
            Key::ScrollLock => 81,
            Key::LeftShift => 82,
            Key::RightShift => 83,
            Key::LeftCtrl => 84,
            Key::RightCtrl => 85,
            Key::NumPad0 => 86,
            Key::NumPad1 => 87,
            Key::NumPad2 => 88,
            Key::NumPad3 => 89,
            Key::NumPad4 => 90,
            Key::NumPad5 => 91,
            Key::NumPad6 => 92,
            Key::NumPad7 => 93,
            Key::NumPad8 => 94,
            Key::NumPad9 => 95,
            Key::NumPadDot => 96,
            Key::NumPadSlash => 97,
            Key::NumPadAsterisk => 98,
            Key::NumPadMinus => 99,
            Key::NumPadPlus => 100,
            Key::NumPadEnter => 101,
            Key::LeftAlt => 102,
            Key::RightAlt => 103,
            Key::LeftSuper => 104,
            Key::RightSuper => 105,
            Key::Unknown => 106,
        }
    }
}

} // verus!
