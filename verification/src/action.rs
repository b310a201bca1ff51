//! The intents the editor can act on, whatever key produced them.

use vstd::prelude::*;
use crate::mode::Mode;

verus! {

/// An intent produced by interpreting one input event and consumed once by
/// the session.
#[derive(Clone, Copy, Debug, PartialEq, Eq, Structural)]
pub enum Action {
    /// Leave the run loop.
    Quit,
    /// Move the cursor one row up, stopping at the first row.
    MoveUp,
    /// Move the cursor one row down.
    MoveDown,
    /// Move the cursor one column to the right.
    MoveRight,
    /// Move the cursor one column to the left, stopping at the first column.
    MoveLeft,
    /// Make the given mode the current one.
    EnterMode(Mode),
}

} // verus!
