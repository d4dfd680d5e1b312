//! Terminal input as the event loop sees it.

use vstd::prelude::*;

verus! {

/// The key that ends the session.
pub const QUIT_KEY: char = 'q';

/// The key of a keyboard event, as far as the loop tells keys apart.
#[derive(Clone, Copy, Debug, PartialEq, Eq, Structural)]
pub enum KeyCode {
    /// A key that produces a character.
    Char(char),
    /// Any other key: arrows, function keys, enter and the like.
    Other,
}

/// What happened to the key.
#[derive(Clone, Copy, Debug, PartialEq, Eq, Structural)]
pub enum KeyKind {
    Press,
    Repeat,
    Release,
}

/// One event read from the terminal.
#[derive(Clone, Copy, Debug, PartialEq, Eq, Structural)]
pub enum InputEvent {
    /// A keyboard event.
    Key { code: KeyCode, kind: KeyKind },
    /// The terminal changed its size.
    Resize { columns: u16, rows: u16 },
    /// Focus, mouse and paste events.
    Other,
}

impl InputEvent {
    /// Whether the event is a press of the quit key.
    pub open spec fn is_quit(self) -> bool {
        self == (InputEvent::Key { code: KeyCode::Char(QUIT_KEY), kind: KeyKind::Press })
    }

    /// Tells whether the event asks to end the session: a press, and only a
    /// press, of the quit key.
    pub fn quits(&self) -> (quit: bool)
        ensures
            quit == self.is_quit(),
    {
        match self {
            InputEvent::Key { code: KeyCode::Char(c), kind: KeyKind::Press } => *c == QUIT_KEY,
            _ => false,
        }
    }
}

} // verus!
