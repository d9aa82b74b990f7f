//! The keys, the mouse buttons and the input events that a frame is fed with.

use vstd::prelude::*;

verus! {

/// A key of the keyboard.
#[derive(Clone, Copy, Debug, PartialEq, Eq, Hash, Structural)]
pub enum Key {
    /// A key the windowing layer has no name for
    Unknown,
    /// The A key
    A,
    /// The B key
    B,
    /// The C key
    C,
    /// The D key
    D,
    /// The E key
    E,
    /// The F key
    F,
    /// The G key
    G,
    /// The H key
    H,
    /// The I key
    I,
    /// The J key
    J,
    /// The K key
    K,
    /// The L key
    L,
    /// The M key
    M,
    /// The N key
    N,
    /// The O key
    O,
    /// The P key
    P,
    /// The Q key
    Q,
    /// The R key
    R,
    /// The S key
    S,
    /// The T key
    T,
    /// The U key
    U,
    /// The V key
    V,
    /// The W key
    W,
    /// The X key
    X,
    /// The Y key
    Y,
    /// The Z key
    Z,
    /// The 0 key
    Num0,
    /// The 1 key
    Num1,
    /// The 2 key
    Num2,
    /// The 3 key
    Num3,
    /// The 4 key
    Num4,
    /// The 5 key
    Num5,
    /// The 6 key
    Num6,
    /// The 7 key
    Num7,
    /// The 8 key
    Num8,
    /// The 9 key
    Num9,
    /// The Escape key
    Escape,
    /// The left Control key
    LControl,
    /// The left Shift key
    LShift,
    /// The left Alt key
    LAlt,
    /// The left system key
    LSystem,
    /// The right Control key
    RControl,
    /// The right Shift key
    RShift,
    /// The right Alt key
    RAlt,
    /// The right system key
    RSystem,
    /// The Menu key
    Menu,
    /// The [ key
    LBracket,
    /// The ] key
    RBracket,
    /// The ; key
    Semicolon,
    /// The , key
    Comma,
    /// The . key
    Period,
    /// The ' key
    Quote,
    /// The / key
    Slash,
    /// The \ key
    Backslash,
    /// The ~ key
    Tilde,
    /// The = key
    Equal,
    /// The - key
    Hyphen,
    /// The Space key
    Space,
    /// The Enter key
    Enter,
    /// The Backspace key
    Backspace,
    /// The Tab key
    Tab,
    /// The Page Up key
    PageUp,
    /// The Page Down key
    PageDown,
    /// The End key
    End,
    /// The Home key
    Home,
    /// The Insert key
    Insert,
    /// The Delete key
    Delete,
    /// The + key of the number pad
    Add,
    /// The - key of the number pad
    Subtract,
    /// The * key of the number pad
    Multiply,
    /// The / key of the number pad
    Divide,
    /// Left arrow
    Left,
    /// Right arrow
    Right,
    /// Up arrow
    Up,
    /// Down arrow
    Down,
    /// The 0 key of the number pad
    Numpad0,
    /// The 1 key of the number pad
    Numpad1,
    /// The 2 key of the number pad
    Numpad2,
    /// The 3 key of the number pad
    Numpad3,
    /// The 4 key of the number pad
    Numpad4,
    /// The 5 key of the number pad
    Numpad5,
    /// The 6 key of the number pad
    Numpad6,
    /// The 7 key of the number pad
    Numpad7,
    /// The 8 key of the number pad
    Numpad8,
    /// The 9 key of the number pad
    Numpad9,
    /// The F1 key
    F1,
    /// The F2 key
    F2,
    /// The F3 key
    F3,
    /// The F4 key
    F4,
    /// The F5 key
    F5,
    /// The F6 key
    F6,
    /// The F7 key
    F7,
    /// The F8 key
    F8,
    /// The F9 key
    F9,
    /// The F10 key
    F10,
    /// The F11 key
    F11,
    /// The F12 key
    F12,
    /// The F13 key
    F13,
    /// The F14 key
    F14,
    /// The F15 key
    F15,
    /// The Pause key
    Pause,
}

/// The number of keys, which is one more than the largest key code.
pub const KEY_COUNT: u8 = 102;

impl Key {
    /// The number that stands for the key wherever keys are looked up. No
    /// two keys share a code, and every code is below [`KEY_COUNT`].
    pub open spec fn spec_code(self) -> u8 {
        match self {
            Key::Unknown => 0,
            Key::A => 1,
            Key::B => 2,
            Key::C => 3,
            Key::D => 4,
            Key::E => 5,
            Key::F => 6,
            Key::G => 7,
            Key::H => 8,
            Key::I => 9,
            Key::J => 10,
            Key::K => 11,
            Key::L => 12,
            Key::M => 13,
            Key::N => 14,
            Key::O => 15,
            Key::P => 16,
            Key::Q => 17,
            Key::R => 18,
            Key::S => 19,
            Key::T => 20,
            Key::U => 21,
            Key::V => 22,
            Key::W => 23,
            Key::X => 24,
            Key::Y => 25,
            Key::Z => 26,
            Key::Num0 => 27,
            Key::Num1 => 28,
            Key::Num2 => 29,
            Key::Num3 => 30,
            Key::Num4 => 31,
            Key::Num5 => 32,
            Key::Num6 => 33,
            Key::Num7 => 34,
            Key::Num8 => 35,
            Key::Num9 => 36,
            Key::Escape => 37,
            Key::LControl => 38,
            Key::LShift => 39,
            Key::LAlt => 40,
            Key::LSystem => 41,
            Key::RControl => 42,
            Key::RShift => 43,
            Key::RAlt => 44,
            Key::RSystem => 45,
            Key::Menu => 46,
            Key::LBracket => 47,
            Key::RBracket => 48,
            Key::Semicolon => 49,
            Key::Comma => 50,
            Key::Period => 51,
            Key::Quote => 52,
            Key::Slash => 53,
            Key::Backslash => 54,
            Key::Tilde => 55,
            Key::Equal => 56,
            Key::Hyphen => 57,
            Key::Space => 58,
            Key::Enter => 59,
            Key::Backspace => 60,
            Key::Tab => 61,
            Key::PageUp => 62,
            Key::PageDown => 63,
            Key::End => 64,
            Key::Home => 65,
            Key::Insert => 66,
            Key::Delete => 67,
            Key::Add => 68,
            Key::Subtract => 69,
            Key::Multiply => 70,
            Key::Divide => 71,
            Key::Left => 72,
            Key::Right => 73,
            Key::Up => 74,
            Key::Down => 75,
            Key::Numpad0 => 76,
            Key::Numpad1 => 77,
            Key::Numpad2 => 78,
            Key::Numpad3 => 79,
            Key::Numpad4 => 80,
            Key::Numpad5 => 81,
            Key::Numpad6 => 82,
            Key::Numpad7 => 83,
            Key::Numpad8 => 84,
            Key::Numpad9 => 85,
            Key::F1 => 86,
            Key::F2 => 87,
            Key::F3 => 88,
            Key::F4 => 89,
            Key::F5 => 90,
            Key::F6 => 91,
            Key::F7 => 92,
            Key::F8 => 93,
            Key::F9 => 94,
            Key::F10 => 95,
            Key::F11 => 96,
            Key::F12 => 97,
            Key::F13 => 98,
            Key::F14 => 99,
            Key::F15 => 100,
            Key::Pause => 101,
        }
    }

    /// The number that stands for the key wherever keys are looked up.
    #[verifier::when_used_as_spec(spec_code)]
    pub fn code(self) -> (code: u8)
        ensures
            code == self.spec_code(),
            code < KEY_COUNT,
    {
        match self {
            Key::Unknown => 0,
            Key::A => 1,
            Key::B => 2,
            Key::C => 3,
            Key::D => 4,
            Key::E => 5,
            Key::F => 6,
            Key::G => 7,
            Key::H => 8,
            Key::I => 9,
            Key::J => 10,
            Key::K => 11,
            Key::L => 12,
            Key::M => 13,
            Key::N => 14,
            Key::O => 15,
            Key::P => 16,
            Key::Q => 17,
            Key::R => 18,
            Key::S => 19,
            Key::T => 20,
            Key::U => 21,
            Key::V => 22,
            Key::W => 23,
            Key::X => 24,
            Key::Y => 25,
            Key::Z => 26,
            Key::Num0 => 27,
            Key::Num1 => 28,
            Key::Num2 => 29,
            Key::Num3 => 30,
            Key::Num4 => 31,
            Key::Num5 => 32,
            Key::Num6 => 33,
            Key::Num7 => 34,
            Key::Num8 => 35,
            Key::Num9 => 36,
            Key::Escape => 37,
            Key::LControl => 38,
            Key::LShift => 39,
            Key::LAlt => 40,
            Key::LSystem => 41,
            Key::RControl => 42,
            Key::RShift => 43,
            Key::RAlt => 44,
            Key::RSystem => 45,
            Key::Menu => 46,
            Key::LBracket => 47,
            Key::RBracket => 48,
            Key::Semicolon => 49,
            Key::Comma => 50,
            Key::Period => 51,
            Key::Quote => 52,
            Key::Slash => 53,
            Key::Backslash => 54,
            Key::Tilde => 55,
            Key::Equal => 56,
            Key::Hyphen => 57,
            Key::Space => 58,
            Key::Enter => 59,
            Key::Backspace => 60,
            Key::Tab => 61,
            Key::PageUp => 62,
            Key::PageDown => 63,
            Key::End => 64,
            Key::Home => 65,
            Key::Insert => 66,
            Key::Delete => 67,
            Key::Add => 68,
            Key::Subtract => 69,
            Key::Multiply => 70,
            Key::Divide => 71,
            Key::Left => 72,
            Key::Right => 73,
            Key::Up => 74,
            Key::Down => 75,
            Key::Numpad0 => 76,
            Key::Numpad1 => 77,
            Key::Numpad2 => 78,
            Key::Numpad3 => 79,
            Key::Numpad4 => 80,
            Key::Numpad5 => 81,
            Key::Numpad6 => 82,
            Key::Numpad7 => 83,
            Key::Numpad8 => 84,
            Key::Numpad9 => 85,
            Key::F1 => 86,
            Key::F2 => 87,
            Key::F3 => 88,
            Key::F4 => 89,
            Key::F5 => 90,
            Key::F6 => 91,
            Key::F7 => 92,
            Key::F8 => 93,
            Key::F9 => 94,
            Key::F10 => 95,
            Key::F11 => 96,
            Key::F12 => 97,
            Key::F13 => 98,
            Key::F14 => 99,
            Key::F15 => 100,
            Key::Pause => 101,
        }
    }

    /// Two keys with the same code are the same key.
    pub proof fn lemma_code_injective(self, other: Key)
        requires
            self.spec_code() == other.spec_code(),
        ensures
            self == other,
    {
    }
}

/// A button of the mouse.
#[derive(Clone, Copy, Debug, PartialEq, Eq, Hash, Structural)]
pub enum Button {
    /// The left mouse button
    Left,
    /// The right mouse button
    Right,
    /// The middle (wheel) mouse button
    Middle,
    /// The first extra mouse button
    XButton1,
    /// The second extra mouse button
    XButton2,
    /// A button the windowing layer has no name for. Every such button
    /// falls into this one bucket, apart from the named buttons.
    Unknown,
}

/// The number of buttons, which is one more than the largest button code.
pub const BUTTON_COUNT: u8 = 6;

impl Button {
    /// The number that stands for the button wherever buttons are looked up.
    /// No two buttons share a code, and every code is below [`BUTTON_COUNT`].
    pub open spec fn spec_code(self) -> u8 {
        match self {
            Button::Left => 0,
            Button::Right => 1,
            Button::Middle => 2,
            Button::XButton1 => 3,
            Button::XButton2 => 4,
            Button::Unknown => 5,
        }
    }

    /// The number that stands for the button wherever buttons are looked up.
    #[verifier::when_used_as_spec(spec_code)]
    pub fn code(self) -> (code: u8)
        ensures
            code == self.spec_code(),
            code < BUTTON_COUNT,
    {
        match self {
            Button::Left => 0,
            Button::Right => 1,
            Button::Middle => 2,
            Button::XButton1 => 3,
            Button::XButton2 => 4,
            Button::Unknown => 5,
        }
    }

    /// Two buttons with the same code are the same button.
    pub proof fn lemma_code_injective(self, other: Button)
        requires
            self.spec_code() == other.spec_code(),
        ensures
            self == other,
    {
    }
}

/// An input event, as the window's event source delivers it.
#[derive(Clone, Copy, Debug, PartialEq, Eq, Structural)]
pub enum Event {
    /// The window was asked to close.
    Closed,
    /// A key went down.
    KeyPressed { code: Key },
    /// A key went up.
    KeyReleased { code: Key },
    /// A mouse button went down.
    MouseButtonPressed { button: Button },
    /// A mouse button went up.
    MouseButtonReleased { button: Button },
    /// The mouse wheel was turned by `delta` steps.
    MouseWheelScrolled { delta: i32 },
    /// The mouse moved to `(x, y)`, in pixels from the window's top left.
    MouseMoved { x: i32, y: i32 },
    /// Any other event. It changes nothing.
    Other,
}

impl Event {
    /// Whether the event asks the program to end: a request to close the
    /// window, or a press of the Escape key.
    pub open spec fn spec_requests_exit(self) -> bool {
        self == Event::Closed || self == (Event::KeyPressed { code: Key::Escape })
    }

    /// Whether the event asks the program to end: a request to close the
    /// window, or a press of the Escape key.
    #[verifier::when_used_as_spec(spec_requests_exit)]
    pub fn requests_exit(self) -> (exit: bool)
        ensures
            exit == self.spec_requests_exit(),
    {
        match self {
            Event::Closed => true,
            Event::KeyPressed { code: Key::Escape } => true,
            _ => false,
        }
    }
}

} // verus!
