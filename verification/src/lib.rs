//! The verified core of a modal terminal editor: the editing modes, the
//! actions a key press can stand for, the session that applies them, and
//! what it draws. The terminal itself is the caller's business: input
//! comes in as plain events, and what is to be written goes out as plain
//! values.

pub mod action;
pub mod editor;
pub mod input;
pub mod keymap;
pub mod laws;
pub mod mode;
pub mod session;
pub mod status;

pub use action::Action;
pub use editor::{Editor, Halt, Response, Run, Step};
pub use input::{Event, Key, KeyKind};
pub use mode::Mode;
pub use status::{Color, Frame, Line, Output, StatusLine, Style};
