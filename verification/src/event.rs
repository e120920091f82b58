//! What the event source delivers: decoded input, and ticks.

use vstd::prelude::*;

verus! {

/// A key press.
#[derive(Clone, Copy, Debug, PartialEq, Eq, Structural)]
pub enum Key {
    Backspace,
    Left,
    Right,
    Up,
    Down,
    Home,
    End,
    PageUp,
    PageDown,
    BackTab,
    Delete,
    Insert,
    /// A function key, by its number.
    F(u8),
    /// A plain character.
    Char(char),
    /// A character typed with Alt held.
    Alt(char),
    /// A character typed with Ctrl held.
    Ctrl(char),
    Null,
    Esc,
    /// A key that the decoder reports but does not name.
    Other,
}

/// A decoded input event.
#[derive(Clone, Copy, Debug, PartialEq, Eq, Structural)]
pub enum Input {
    /// A key press.
    Key(Key),
    /// A mouse button press, release or movement.
    Mouse,
    /// Bytes that the decoder could not make sense of.
    Unsupported,
}

/// An event: input, or a tick that only marks the passing of time.
#[derive(Clone, Copy, Debug, PartialEq, Eq, Structural)]
pub enum Event {
    Input(Input),
    Tick,
}

impl Input {
    /// The input is a press of the plain character `q`, the key that quits.
    pub open spec fn is_quit(self) -> bool {
        self == Input::Key(Key::Char('q'))
    }
}

impl Event {
    /// The event is a press of the key that quits.
    pub open spec fn is_quit(self) -> bool {
        self matches Event::Input(input) && input.is_quit()
    }
}

} // verus!
