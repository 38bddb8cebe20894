//! What the keyboard reports, as plain values.

use vstd::prelude::*;

verus! {

/// A key of the keyboard. Keys that no dialogue binds are `Other`.
#[derive(Clone, Copy, Debug, PartialEq, Eq)]
pub enum Key {
    Char(char),
    Up,
    Down,
    Left,
    Right,
    Home,
    End,
    Tab,
    Enter,
    Esc,
    Other,
}

/// Whether a key went down, is held, or came up.
#[derive(Clone, Copy, Debug, PartialEq, Eq)]
pub enum KeyKind {
    Press,
    Repeat,
    Release,
}

/// What one bounded wait for input brought.
#[derive(Clone, Copy, Debug, PartialEq, Eq)]
pub enum Input {
    /// The wait ran out, or what arrived was no key.
    Idle,
    Key { key: Key, kind: KeyKind },
}

impl Input {
    /// A key that went down.
    pub fn press(key: Key) -> (input: Input)
        ensures
            input == (Input::Key { key, kind: KeyKind::Press }),
    {
        Input::Key { key, kind: KeyKind::Press }
    }

    /// The key that this input presses, if it presses one: a key that is held
    /// or released presses nothing.
    pub open spec fn pressed(self) -> Option<Key> {
        match self {
            Input::Key { key, kind: KeyKind::Press } => Some(key),
            _ => None,
        }
    }

    /// The key that this input presses, if it presses one.
    pub fn pressed_key(&self) -> (key: Option<Key>)
        ensures
            key == self.pressed(),
    {
        match *self {
            Input::Key { key, kind: KeyKind::Press } => Some(key),
            _ => None,
        }
    }
}

} // verus!
