//! Key presses, as the application reads them.

use vstd::prelude::*;

verus! {

/// The key that was pressed.
#[derive(Clone, Copy, Debug, PartialEq, Eq, Structural)]
pub enum Key {
    /// A key that stands for a character.
    Char(char),
    Tab,
    Esc,
    Enter,
    Backspace,
    /// Any other key.
    Other,
}

/// One key press: the key, and whether Control or Alt was held with it.
#[derive(Clone, Copy, Debug, PartialEq, Eq, Structural)]
pub struct KeyPress {
    pub key: Key,
    pub ctrl: bool,
    pub alt: bool,
}

impl KeyPress {
    /// The character that the key press types, if it types one: that of a
    /// character key pressed without Control and without Alt.
    pub open spec fn typed(self) -> Option<char> {
        match self.key {
            Key::Char(c) => if self.ctrl || self.alt {
                None
            } else {
                Some(c)
            },
            _ => None,
        }
    }

    /// The press of `key` alone.
    pub fn plain(key: Key) -> (press: KeyPress)
        ensures
            press == (KeyPress { key, ctrl: false, alt: false }),
    {
        KeyPress { key, ctrl: false, alt: false }
    }

    /// The character that the key press types, if it types one.
    pub fn typed_char(&self) -> (c: Option<char>)
        ensures
            c == self.typed(),
    {
        match self.key {
            Key::Char(c) => if self.ctrl || self.alt {
                None
            } else {
                Some(c)
            },
            _ => None,
        }
    }
}

} // verus!
