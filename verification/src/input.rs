//! Input events as the editor sees them.

use vstd::prelude::*;

verus! {

/// The identity of a pressed key. Modifiers are not part of it.
#[derive(Clone, Copy, Debug, PartialEq, Eq, Structural)]
pub enum Key {
    /// A key that produces a character.
    Char(char),
    Left,
    Right,
    Up,
    Down,
    Enter,
    Esc,
    /// Any key the editor has no use for in any mode.
    Other,
}

/// What happened to a key, as the terminal reports it.
#[derive(Clone, Copy, Debug, PartialEq, Eq, Structural)]
pub enum KeyKind {
    /// The key went down.
    Press,
    /// The key is held and the terminal repeats it.
    Repeat,
    /// The key came up.
    Release,
}

/// One event read from the terminal.
#[derive(Clone, Copy, Debug, PartialEq, Eq, Structural)]
pub enum Event {
    /// A key was pressed.
    Key(Key),
    /// Anything else: a key held or released, focus, mouse, paste, resize.
    /// The editor ignores it in every mode.
    Other,
}

/// The event that a report of `kind` about `key` comes to: only a press is
/// a key event to the editor; a repeat or a release is nothing to it.
pub open spec fn key_event(kind: KeyKind, key: Key) -> Event {
    match kind {
        KeyKind::Press => Event::Key(key),
        _ => Event::Other,
    }
}

impl Event {
    /// Classifies what the terminal reports about a key: a press of `key`
    /// is the key event, anything else about it is an event to ignore.
    pub fn of_key(kind: KeyKind, key: Key) -> (ev: Event)
        ensures
            ev == key_event(kind, key),
            kind is Press ==> ev == Event::Key(key),
            !(kind is Press) ==> ev is Other,
    {
        match kind {
            KeyKind::Press => Event::Key(key),
            KeyKind::Repeat => Event::Other,
            KeyKind::Release => Event::Other,
        }
    }
}

} // verus!
