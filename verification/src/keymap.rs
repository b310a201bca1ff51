//! The per-mode mapping from input to actions.

use vstd::prelude::*;
use crate::action::Action;
use crate::input::{Event, Key};
use crate::mode::Mode;

verus! {

/// The action bound to `key` in command mode.
pub open spec fn command_action(key: Key) -> Option<Action> {
    match key {
        Key::Char('q') => Some(Action::Quit),
        Key::Char('h') | Key::Left => Some(Action::MoveLeft),
        Key::Char('j') | Key::Down => Some(Action::MoveDown),
        Key::Char('k') | Key::Up => Some(Action::MoveUp),
        Key::Char('l') | Key::Right => Some(Action::MoveRight),
        Key::Char('i') => Some(Action::EnterMode(Mode::Insert)),
        Key::Char('v') => Some(Action::EnterMode(Mode::Visual)),
        _ => None,
    }
}

/// The action bound to `key` in insert mode. Typing keys are bound to no
/// action: see [`echo`].
pub open spec fn insert_action(key: Key) -> Option<Action> {
    match key {
        Key::Esc => Some(Action::EnterMode(Mode::Command)),
        _ => None,
    }
}

/// The action bound to `key` in visual mode.
pub open spec fn visual_action(key: Key) -> Option<Action> {
    match key {
        Key::Esc => Some(Action::EnterMode(Mode::Command)),
        _ => None,
    }
}

/// The action that `ev` stands for while `mode` is current.
pub open spec fn translate(mode: Mode, ev: Event) -> Option<Action> {
    match ev {
        Event::Key(key) => match mode {
            Mode::Command => command_action(key),
            Mode::Insert => insert_action(key),
            Mode::Visual => visual_action(key),
        },
        Event::Other => None,
    }
}

/// The character that `ev` writes to the terminal while `mode` is current.
pub open spec fn echo(mode: Mode, ev: Event) -> Option<char> {
    match (mode, ev) {
        (Mode::Insert, Event::Key(Key::Char(c))) => Some(c),
        _ => None,
    }
}

/// Whether `ev` ends the run loop while `mode` is current.
pub open spec fn quits(mode: Mode, ev: Event) -> bool {
    translate(mode, ev) == Some(Action::Quit)
}

/// Whether `key` is in the mapping table of `mode`, that is, whether the
/// editor reacts to it at all.
pub open spec fn mapped(mode: Mode, key: Key) -> bool {
    match mode {
        Mode::Command => {
            ||| key == Key::Char('q')
            ||| key == Key::Char('h')
            ||| key == Key::Char('j')
            ||| key == Key::Char('k')
            ||| key == Key::Char('l')
            ||| key == Key::Char('i')
            ||| key == Key::Char('v')
            ||| key is Left
            ||| key is Down
            ||| key is Up
            ||| key is Right
        },
        Mode::Insert => key is Esc || key is Char || key is Enter,
        Mode::Visual => key is Esc,
    }
}

} // verus!
