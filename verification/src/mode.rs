//! The editing modes.

use vstd::prelude::*;

verus! {

/// The interpretation context for input. Exactly one mode is active at a time.
#[derive(Clone, Copy, Debug, PartialEq, Eq, Structural)]
pub enum Mode {
    /// Keys are commands: movement, mode switches, quit.
    Command,
    /// Keys are text typed at the cursor.
    Insert,
    /// Selection mode; only Escape is understood.
    Visual,
}

/// The name a mode goes by on the status line.
pub open spec fn mode_name(mode: Mode) -> Seq<char> {
    match mode {
        Mode::Command => "COMMAND"@,
        Mode::Insert => "INSERT"@,
        Mode::Visual => "VISUAL"@,
    }
}

impl Mode {
    /// The name this mode goes by on the status line.
    pub fn name(&self) -> (name: &'static str)
        ensures
            name@ == mode_name(*self),
    {
        match self {
            Mode::Command => "COMMAND",
            Mode::Insert => "INSERT",
            Mode::Visual => "VISUAL",
        }
    }
}

} // verus!
