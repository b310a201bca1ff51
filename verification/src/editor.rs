//! The editor session in executable form.

use vstd::prelude::*;
use crate::action::Action;
use crate::input::{Event, Key};
use crate::keymap::{echo, mapped, quits, translate};
use crate::mode::Mode;
use crate::session::Session;
use crate::status::{shows, Output};

verus! {

/// An editing session: the current mode, the cursor and the viewport size,
/// in the terminal's own 16-bit coordinates.
pub struct Editor {
    current_mode: Mode,
    cx: u16,
    cy: u16,
    window_size: (u16, u16),
}

/// What the editor makes of one input event.
#[derive(Clone, Copy, Debug, PartialEq, Eq)]
pub struct Response {
    /// The action the event stands for, still to be applied.
    pub action: Option<Action>,
    /// The character to write to the terminal at the cell the cursor was on.
    pub echo: Option<char>,
}

/// What one pass of the run loop leaves for its caller to do.
#[derive(Clone, Copy, Debug, PartialEq, Eq)]
pub struct Step {
    /// The character to write to the terminal at the cell the cursor was on.
    pub echo: Option<char>,
    /// Whether the loop goes on; `false` once a `Quit` action was produced.
    pub go_on: bool,
}

/// Why a run over recorded input stopped.
#[derive(Clone, Copy, Debug, PartialEq, Eq, Structural)]
pub enum Halt {
    /// An event produced the `Quit` action.
    Quit,
    /// Every event was read and none of them quit.
    Exhausted,
    /// The next event would move the cursor past the last addressable cell.
    Limit,
}

/// The outcome of a run over recorded input.
#[derive(Debug, PartialEq, Eq)]
pub struct Run {
    /// How many events were read and acted on.
    pub consumed: usize,
    /// Why the run stopped.
    pub halt: Halt,
    /// Everything the loop wrote, in order.
    pub trace: Vec<Output>,
}

impl View for Editor {
    type V = Session;

    closed spec fn view(&self) -> Session {
        Session {
            mode: self.current_mode,
            column: self.cx as nat,
            row: self.cy as nat,
            width: self.window_size.0 as nat,
            height: self.window_size.1 as nat,
        }
    }
}

impl Editor {
    /// A session before it has seen the terminal: command mode, cursor at
    /// the origin, an empty viewport.
    pub fn new() -> (editor: Editor)
        ensures
            editor@ == Session::initial(),
    {
        Editor { current_mode: Mode::Command, cx: 0, cy: 0, window_size: (0, 0) }
    }

    /// Every editor stands for an addressable session.
    pub proof fn lemma_addressable(&self)
        ensures
            self@.addressable(),
    {
    }

    /// Interprets `ev` as command mode does. The session plays no part.
    pub fn handle_command_mode_event(ev: Event) -> (action: Option<Action>)
        ensures
            action == translate(Mode::Command, ev),
    {
        match ev {
            Event::Key(key) => match key {
                Key::Char('q') => Some(Action::Quit),
                Key::Char('h') | Key::Left => Some(Action::MoveLeft),
                Key::Char('j') | Key::Down => Some(Action::MoveDown),
                Key::Char('k') | Key::Up => Some(Action::MoveUp),
                Key::Char('l') | Key::Right => Some(Action::MoveRight),
                Key::Char('i') => Some(Action::EnterMode(Mode::Insert)),
                Key::Char('v') => Some(Action::EnterMode(Mode::Visual)),
                _ => None,
            },
            Event::Other => None,
        }
    }

    /// Interprets `ev` as insert mode does: Escape asks for command mode; a
    /// character is echoed and advances the column by one; Enter moves to
    /// the start of the next row. The cursor must have room for the move.
    pub fn handle_insert_mode_event(&mut self, ev: Event) -> (out: Response)
        requires
            old(self)@.typed(ev).addressable(),
        ensures
            out.action == translate(Mode::Insert, ev),
            out.echo == echo(Mode::Insert, ev),
            final(self)@ == old(self)@.typed(ev),
    {
        match ev {
            Event::Key(key) => match key {
                Key::Esc => Response { action: Some(Action::EnterMode(Mode::Command)), echo: None },
                Key::Char(c) => {
                    self.cx += 1;
                    Response { action: None, echo: Some(c) }
                },
                Key::Enter => {
                    self.cx = 0;
                    self.cy += 1;
                    Response { action: None, echo: None }
                },
                _ => Response { action: None, echo: None },
            },
            Event::Other => Response { action: None, echo: None },
        }
    }

    /// Interprets `ev` as visual mode does. The session plays no part.
    pub fn handle_visual_mode_event(ev: Event) -> (action: Option<Action>)
        ensures
            action == translate(Mode::Visual, ev),
    {
        match ev {
            Event::Key(key) => match key {
                Key::Esc => Some(Action::EnterMode(Mode::Command)),
                _ => None,
            },
            Event::Other => None,
        }
    }

    /// Interprets `ev` in the current mode. The result names the action the
    /// event stands for and the character to echo; typing in insert mode
    /// has moved the cursor already. The mode never changes here, and a key
    /// outside the current mode's mapping table changes nothing at all.
    pub fn handle_event(&mut self, ev: Event) -> (out: Response)
        requires
            old(self)@.after_input(ev).addressable(),
        ensures
            out.action == translate(old(self)@.mode, ev),
            out.echo == echo(old(self)@.mode, ev),
            final(self)@ == old(self)@.after_input(ev),
            final(self)@.mode == old(self)@.mode,
            ev matches Event::Key(key) && !mapped(old(self)@.mode, key) ==> out.action is None
                && out.echo is None && final(self)@ == old(self)@,
            ev is Other ==> out.action is None && out.echo is None && final(self)@ == old(self)@,
    {
        match self.current_mode {
            Mode::Command => Response { action: Self::handle_command_mode_event(ev), echo: None },
            Mode::Insert => self.handle_insert_mode_event(ev),
            Mode::Visual => Response { action: Self::handle_visual_mode_event(ev), echo: None },
        }
    }

    /// Applies `action` to the session and says whether the run loop goes
    /// on: it does after every action but `Quit`, which changes nothing.
    /// Moves up and left stop at zero; moves down and right need room below
    /// the last addressable cell and are otherwise not bounded, whatever
    /// the viewport size.
    pub fn apply(&mut self, action: Action) -> (go_on: bool)
        requires
            old(self)@.after_action(action).addressable(),
        ensures
            final(self)@ == old(self)@.after_action(action),
            go_on == (action != Action::Quit),
            action == Action::Quit ==> final(self)@ == old(self)@,
            final(self)@.mode != old(self)@.mode ==> action == Action::EnterMode(final(self)@.mode),
    {
        match action {
            Action::Quit => {
                return false;
            },
            Action::MoveDown => {
                self.cy += 1;
            },
            Action::MoveUp => {
                self.cy = self.cy.saturating_sub(1);
            },
            Action::MoveLeft => {
                self.cx = self.cx.saturating_sub(1);
            },
            Action::MoveRight => {
                self.cx += 1;
            },
            Action::EnterMode(mode) => {
                self.current_mode = mode;
            },
        }
        true
    }

    /// Whether the cursor has room for what `ev` would do, so that
    /// [`Editor::step`] can take it.
    pub fn accepts(&self, ev: Event) -> (ok: bool)
        ensures
            ok == self@.admits(ev),
    {
        match self.current_mode {
            Mode::Command => match Self::handle_command_mode_event(ev) {
                Some(Action::MoveDown) => self.cy < u16::MAX,
                Some(Action::MoveRight) => self.cx < u16::MAX,
                _ => true,
            },
            Mode::Insert => match ev {
                Event::Key(Key::Char(_)) => self.cx < u16::MAX,
                Event::Key(Key::Enter) => self.cy < u16::MAX,
                _ => true,
            },
            Mode::Visual => true,
        }
    }

    /// One pass of the run loop on the event that was read: interprets it
    /// in the current mode and applies the action it stands for, if any.
    pub fn step(&mut self, ev: Event) -> (out: Step)
        requires
            old(self)@.admits(ev),
        ensures
            final(self)@ == old(self)@.after_event(ev),
            out.echo == echo(old(self)@.mode, ev),
            out.go_on == !quits(old(self)@.mode, ev),
            !out.go_on ==> final(self)@ == old(self)@,
    {
        let response = self.handle_event(ev);
        let go_on = match response.action {
            Some(action) => self.apply(action),
            None => true,
        };
        Step { echo: response.echo, go_on }
    }

    /// Starts the session on a viewport of `window_size` (columns, rows)
    /// and runs the loop over recorded input. Each pass draws the session,
    /// then reads the next event of `script`, interprets it and applies
    /// the action it stands for. The run ends after the event that quits,
    /// with nothing drawn after it; or at the read that finds the script
    /// at its end, or an event the cursor has no room for. Mode and cursor
    /// go on from where they were.
    pub fn start(&mut self, window_size: (u16, u16), script: &[Event]) -> (run: Run)
        ensures
            run.consumed == old(self)@.sized(window_size.0 as nat, window_size.1 as nat).taken(
                script@,
            ),
            run.halt == old(self)@.sized(window_size.0 as nat, window_size.1 as nat).halt(script@),
            final(self)@ == old(self)@.sized(
                window_size.0 as nat,
                window_size.1 as nat,
            ).after_events(script@.take(run.consumed as int)),
            shows(
                run.trace@,
                old(self)@.sized(window_size.0 as nat, window_size.1 as nat).trace(script@),
            ),
    {
        self.window_size = window_size;
        let ghost begun = self@;
        let mut trace: Vec<Output> = Vec::new();
        let mut i: usize = 0;
        proof {
            assert(script@.skip(0) == script@);
        }
        while i < script.len()
            invariant
                i <= script.len(),
                begun == old(self)@.sized(window_size.0 as nat, window_size.1 as nat),
                self@ == begun.after_events(script@.take(i as int)),
                begun.reads(script@) == i + self@.reads(script@.skip(i as int)),
                begun.room(script@) == i + self@.room(script@.skip(i as int)),
                begun.finishes(script@) == self@.finishes(script@.skip(i as int)),
                shows(trace@, begun.written(script@.take(i as int))),
            decreases script.len() - i,
        {
            let ev = script[i];
            proof {
                assert(script@.skip(i as int).first() == ev);
                assert(script@.skip(i as int).drop_first() == script@.skip(i + 1));
                assert(script@.take(i + 1).drop_last() == script@.take(i as int));
                assert(script@.take(i + 1).last() == ev);
            }
            trace.push(Output::Frame(self.render()));
            if !self.accepts(ev) {
                return Run { consumed: i, halt: Halt::Limit, trace };
            }
            let out = self.step(ev);
            i += 1;
            match out.echo {
                Some(c) => {
                    trace.push(Output::Echo(c));
                },
                None => {},
            }
            if !out.go_on {
                return Run { consumed: i, halt: Halt::Quit, trace };
            }
        }
        proof {
            assert(script@.skip(i as int).len() == 0);
            assert(script@.take(i as int) == script@);
        }
        trace.push(Output::Frame(self.render()));
        Run { consumed: i, halt: Halt::Exhausted, trace }
    }

    /// The current mode.
    pub fn mode(&self) -> (mode: Mode)
        ensures
            mode == self@.mode,
    {
        self.current_mode
    }

    /// The cell the cursor is on, as (column, row).
    pub fn cursor(&self) -> (at: (u16, u16))
        ensures
            at.0 == self@.column,
            at.1 == self@.row,
    {
        (self.cx, self.cy)
    }

    /// The size of the viewport, as (columns, rows).
    pub fn window_size(&self) -> (size: (u16, u16))
        ensures
            size.0 == self@.width,
            size.1 == self@.height,
    {
        self.window_size
    }
}

} // verus!
