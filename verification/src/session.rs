//! The session as a mathematical value, and what input does to it.
//!
//! Coordinates here are natural numbers: nothing bounds them from above, and
//! nothing can take them below zero.

use vstd::prelude::*;
use crate::action::Action;
use crate::editor::Halt;
use crate::input::{Event, Key};
use crate::keymap::{quits, translate};
use crate::mode::Mode;

verus! {

/// The state of an editing session: the current mode, the cell the cursor is
/// on, and the size of the viewport.
pub struct Session {
    pub mode: Mode,
    pub column: nat,
    pub row: nat,
    pub width: nat,
    pub height: nat,
}

impl Session {
    /// A session before it has seen the terminal: command mode, cursor at
    /// the origin, an empty viewport.
    pub open spec fn initial() -> Session {
        Session { mode: Mode::Command, column: 0, row: 0, width: 0, height: 0 }
    }

    /// Whether every coordinate fits the terminal's 16-bit cell addresses.
    pub open spec fn addressable(self) -> bool {
        &&& self.column <= u16::MAX
        &&& self.row <= u16::MAX
        &&& self.width <= u16::MAX
        &&& self.height <= u16::MAX
    }

    /// The same session on a viewport of `width` columns and `height` rows.
    pub open spec fn sized(self, width: nat, height: nat) -> Session {
        Session { width, height, ..self }
    }

    /// What the typing keys of insert mode do to the cursor: a character
    /// advances the column by one, Enter starts the next row, and every
    /// other event leaves the session as it is.
    pub open spec fn typed(self, ev: Event) -> Session {
        match ev {
            Event::Key(Key::Char(_)) => Session { column: self.column + 1, ..self },
            Event::Key(Key::Enter) => Session { column: 0, row: self.row + 1, ..self },
            _ => self,
        }
    }

    /// What reading `ev` does to the session before any action is applied:
    /// typing in insert mode, nothing in the other modes.
    pub open spec fn after_input(self, ev: Event) -> Session {
        match self.mode {
            Mode::Insert => self.typed(ev),
            _ => self,
        }
    }

    /// The session after `action` has been applied.
    pub open spec fn after_action(self, action: Action) -> Session {
        match action {
            Action::Quit => self,
            Action::MoveUp => Session {
                row: if self.row == 0 { 0 } else { (self.row - 1) as nat },
                ..self
            },
            Action::MoveDown => Session { row: self.row + 1, ..self },
            Action::MoveLeft => Session {
                column: if self.column == 0 { 0 } else { (self.column - 1) as nat },
                ..self
            },
            Action::MoveRight => Session { column: self.column + 1, ..self },
            Action::EnterMode(mode) => Session { mode, ..self },
        }
    }

    /// The session after one pass of the run loop that read `ev`: the input
    /// is interpreted in the current mode, and the action it stands for, if
    /// any, is applied.
    pub open spec fn after_event(self, ev: Event) -> Session {
        let typed = self.after_input(ev);
        match translate(self.mode, ev) {
            Some(action) => typed.after_action(action),
            None => typed,
        }
    }

    /// The session after every action of `actions` has been applied in
    /// order.
    pub open spec fn after_actions(self, actions: Seq<Action>) -> Session
        decreases actions.len(),
    {
        if actions.len() == 0 {
            self
        } else {
            self.after_actions(actions.drop_last()).after_action(actions.last())
        }
    }

    /// Whether the session can take `ev` without leaving the addressable
    /// range.
    pub open spec fn admits(self, ev: Event) -> bool {
        self.after_event(ev).addressable()
    }

    /// The session after every event of `script` has been read in order.
    pub open spec fn after_events(self, script: Seq<Event>) -> Session
        decreases script.len(),
    {
        if script.len() == 0 {
            self
        } else {
            self.after_events(script.drop_last()).after_event(script.last())
        }
    }

    /// How many events of `script` the run loop reads: all of them up to and
    /// including the first that quits.
    pub open spec fn reads(self, script: Seq<Event>) -> nat
        decreases script.len(),
    {
        if script.len() == 0 {
            0
        } else if quits(self.mode, script.first()) {
            1
        } else {
            1 + self.after_event(script.first()).reads(script.drop_first())
        }
    }

    /// Whether the run loop, reading `script`, comes to an event that quits.
    pub open spec fn finishes(self, script: Seq<Event>) -> bool
        decreases script.len(),
    {
        &&& script.len() > 0
        &&& (quits(self.mode, script.first()) || self.after_event(script.first()).finishes(
            script.drop_first(),
        ))
    }

    /// How many leading events of `script` the session can take before one
    /// would move the cursor out of the addressable range.
    pub open spec fn room(self, script: Seq<Event>) -> nat
        decreases script.len(),
    {
        if script.len() == 0 || !self.admits(script.first()) {
            0
        } else {
            1 + self.after_event(script.first()).room(script.drop_first())
        }
    }

    /// How many events of `script` the run loop takes: it stops after the
    /// first event that quits, before the first that the session has no
    /// room for, or at the end of the script, whichever comes first.
    pub open spec fn taken(self, script: Seq<Event>) -> nat {
        if self.room(script) < self.reads(script) {
            self.room(script)
        } else {
            self.reads(script)
        }
    }

    /// Why the run loop stops reading `script`.
    pub open spec fn halt(self, script: Seq<Event>) -> Halt {
        if self.room(script) < self.reads(script) {
            Halt::Limit
        } else if self.finishes(script) {
            Halt::Quit
        } else {
            Halt::Exhausted
        }
    }
}

} // verus!
