//! What the editor draws: the status line near the bottom of the viewport
//! and the cursor. Nothing here touches the terminal; each function says
//! what is to be written and where.

use vstd::prelude::*;
use crate::editor::{Editor, Halt};
use crate::input::Event;
use crate::keymap::echo;
use crate::mode::{mode_name, Mode};
use crate::session::Session;

verus! {

/// A terminal colour.
#[derive(Clone, Copy, Debug, PartialEq, Eq)]
pub enum Color {
    Black,
    Rgb { r: u8, g: u8, b: u8 },
}

/// How a run of text is painted. `None` leaves a colour as the terminal
/// has it.
#[derive(Clone, Copy, Debug, PartialEq, Eq)]
pub struct Style {
    pub foreground: Option<Color>,
    pub background: Option<Color>,
    pub bold: bool,
}

/// A run of text to write, starting at the cell (`column`, `row`).
#[derive(Debug, PartialEq, Eq)]
pub struct Line {
    pub column: u16,
    pub row: u16,
    pub text: String,
    pub style: Style,
}

/// The two writes that draw the status line: first the blanks that clear
/// its row, then the label over them.
#[derive(Debug, PartialEq, Eq)]
pub struct StatusLine {
    pub blank: Line,
    pub label: Line,
}

/// One rendering of the session: the status line, where the viewport has
/// a row for it, then the cell to leave the terminal's cursor on, as
/// (column, row).
#[derive(Debug, PartialEq, Eq)]
pub struct Frame {
    pub status: Option<StatusLine>,
    pub cursor: (u16, u16),
}

/// One thing the run loop writes to the terminal.
#[derive(Debug, PartialEq, Eq)]
pub enum Output {
    /// A rendering of the session, drawn before an event is read.
    Frame(Frame),
    /// A character typed in insert mode, written where the cursor was.
    Echo(char),
}

/// A [`Line`] as a mathematical value.
pub struct LineView {
    pub column: nat,
    pub row: nat,
    pub text: Seq<char>,
    pub style: Style,
}

/// A [`StatusLine`] as a mathematical value.
pub struct StatusLineView {
    pub blank: LineView,
    pub label: LineView,
}

/// A [`Frame`] as a mathematical value.
pub struct FrameView {
    pub status: Option<StatusLineView>,
    pub column: nat,
    pub row: nat,
}

/// An [`Output`] as a mathematical value.
pub enum OutputView {
    Frame(FrameView),
    Echo(char),
}

impl View for Line {
    type V = LineView;

    open spec fn view(&self) -> LineView {
        LineView {
            column: self.column as nat,
            row: self.row as nat,
            text: self.text@,
            style: self.style,
        }
    }
}

impl View for StatusLine {
    type V = StatusLineView;

    open spec fn view(&self) -> StatusLineView {
        StatusLineView { blank: self.blank@, label: self.label@ }
    }
}

impl View for Frame {
    type V = FrameView;

    open spec fn view(&self) -> FrameView {
        FrameView {
            status: match self.status {
                Some(status) => Some(status@),
                None => None,
            },
            column: self.cursor.0 as nat,
            row: self.cursor.1 as nat,
        }
    }
}

impl View for Output {
    type V = OutputView;

    open spec fn view(&self) -> OutputView {
        match self {
            Output::Frame(frame) => OutputView::Frame(frame@),
            Output::Echo(c) => OutputView::Echo(*c),
        }
    }
}

/// Whether the outputs of `trace` are, one by one and in order, those of
/// `model`.
pub open spec fn shows(trace: Seq<Output>, model: Seq<OutputView>) -> bool {
    &&& trace.len() == model.len()
    &&& forall|i: int| 0 <= i < trace.len() ==> (#[trigger] trace[i])@ == model[i]
}

/// How many frames `trace` holds.
pub open spec fn frames_in(trace: Seq<OutputView>) -> nat
    decreases trace.len(),
{
    if trace.len() == 0 {
        0
    } else if trace.last() is Frame {
        frames_in(trace.drop_last()) + 1
    } else {
        frames_in(trace.drop_last())
    }
}

/// `width` blank cells.
pub open spec fn blanks(width: nat) -> Seq<char> {
    Seq::new(width, |i: int| ' ')
}

/// The glyphs that close the status label.
pub open spec fn separator() -> Seq<char> {
    "\u{c2}\u{2013}\u{ba}"@
}

/// The status label of `mode`: a blank, the mode's name, a blank and the
/// separator.
pub open spec fn label(mode: Mode) -> Seq<char> {
    " "@ + mode_name(mode) + " "@ + separator()
}

/// The background of the status line.
pub open spec fn status_background() -> Color {
    Color::Rgb { r: 225, g: 148, b: 148 }
}

/// Text as the terminal paints it by default.
pub open spec fn plain_style() -> Style {
    Style { foreground: None, background: None, bold: false }
}

/// Blank cells on the status background.
pub open spec fn bar_style() -> Style {
    Style { foreground: None, background: Some(status_background()), bold: false }
}

/// The label: bold black on the status background.
pub open spec fn label_style() -> Style {
    Style { foreground: Some(Color::Black), background: Some(status_background()), bold: true }
}

impl Session {
    /// Whether the viewport is high enough to hold the status line.
    pub open spec fn has_status_row(self) -> bool {
        self.height >= 2
    }

    /// The row of the status line: the last but one of the viewport. A
    /// viewport of fewer than two rows has none.
    pub open spec fn status_row(self) -> Option<nat> {
        if self.has_status_row() {
            Some((self.height - 2) as nat)
        } else {
            None
        }
    }

    /// The write that clears the status line: blanks in `style` from the
    /// first column of the status row across the whole width.
    pub open spec fn blank_line(self, style: Style) -> Option<LineView> {
        match self.status_row() {
            Some(row) => Some(LineView { column: 0, row, text: blanks(self.width), style }),
            None => None,
        }
    }

    /// The write that labels the status line: the label of the current
    /// mode from the first column of the status row.
    pub open spec fn label_line(self) -> Option<LineView> {
        match self.status_row() {
            Some(row) => Some(
                LineView { column: 0, row, text: label(self.mode), style: label_style() },
            ),
            None => None,
        }
    }

    /// The status line: its row cleared with unpainted blanks, then
    /// labelled. A viewport of fewer than two rows has none.
    pub open spec fn status_line(self) -> Option<StatusLineView> {
        match (self.blank_line(plain_style()), self.label_line()) {
            (Some(blank), Some(label)) => Some(StatusLineView { blank, label }),
            _ => None,
        }
    }

    /// What one rendering of the session shows: the status line, if the
    /// viewport has a row for it, and the terminal's cursor on the
    /// session's.
    pub open spec fn frame(self) -> FrameView {
        FrameView { status: self.status_line(), column: self.column, row: self.row }
    }

    /// What the run loop writes while it takes every event of `script`:
    /// before each event is read, the frame of the session as it then is;
    /// after an event that types a character, that character.
    pub open spec fn written(self, script: Seq<Event>) -> Seq<OutputView>
        decreases script.len(),
    {
        if script.len() == 0 {
            seq![]
        } else {
            let before = self.after_events(script.drop_last());
            let drawn = self.written(script.drop_last()).push(OutputView::Frame(before.frame()));
            match echo(before.mode, script.last()) {
                Some(c) => drawn.push(OutputView::Echo(c)),
                None => drawn,
            }
        }
    }

    /// Everything the run loop writes on a run over `script`: what it
    /// writes while it takes the events it takes and, unless the last of
    /// them quit, the frame it draws before the read that ends the run.
    /// After the event that quits nothing is written.
    pub open spec fn trace(self, script: Seq<Event>) -> Seq<OutputView> {
        let taken = script.take(self.taken(script) as int);
        if self.halt(script) is Quit {
            self.written(taken)
        } else {
            self.written(taken).push(OutputView::Frame(self.after_events(taken).frame()))
        }
    }
}

impl Editor {
    /// The row of the status line, the last but one of the viewport, or
    /// `None` where the viewport has fewer than two rows.
    pub fn status_row(&self) -> (row: Option<u16>)
        ensures
            match row {
                Some(row) => self@.status_row() == Some(row as nat),
                None => self@.status_row() is None,
            },
    {
        let height: u16 = self.window_size().1;
        if height >= 2 {
            Some(height - 2)
        } else {
            None
        }
    }

    /// A row of blanks as wide as the viewport.
    fn blank_text(&self) -> (text: String)
        ensures
            text@ == blanks(self@.width),
    {
        let width: u16 = self.window_size().0;
        let mut text = String::new();
        let mut n: u16 = 0;
        while n < width
            invariant
                n <= width,
                text@ == blanks(n as nat),
            decreases width - n,
        {
            proof {
                reveal_strlit(" ");
            }
            text.append(" ");
            n += 1;
            assert(text@ =~= blanks(n as nat));
        }
        text
    }

    /// The write that clears the status line: blanks across the whole
    /// width of its row, unpainted. `None` where the viewport has no row
    /// for the status line.
    pub fn clear_status_line(&self) -> (line: Option<Line>)
        ensures
            match line {
                Some(line) => self@.blank_line(plain_style()) == Some(line@),
                None => self@.blank_line(plain_style()) is None,
            },
    {
        match self.status_row() {
            Some(row) => Some(
                Line {
                    column: 0,
                    row,
                    text: self.blank_text(),
                    style: Style { foreground: None, background: None, bold: false },
                },
            ),
            None => None,
        }
    }

    /// The write that clears the status line to a bar: blanks across the
    /// whole width of its row, on the status background. `None` where the
    /// viewport has no row for the status line.
    pub fn clear_stylized_status_line(&self) -> (line: Option<Line>)
        ensures
            match line {
                Some(line) => self@.blank_line(bar_style()) == Some(line@),
                None => self@.blank_line(bar_style()) is None,
            },
    {
        match self.status_row() {
            Some(row) => Some(
                Line {
                    column: 0,
                    row,
                    text: self.blank_text(),
                    style: Style {
                        foreground: None,
                        background: Some(Color::Rgb { r: 225, g: 148, b: 148 }),
                        bold: false,
                    },
                },
            ),
            None => None,
        }
    }

    /// The writes that draw the status line: the row is cleared, then the
    /// label of the current mode is written over it in bold black on the
    /// status background. `None` where the viewport has no row for the
    /// status line: there is nothing to draw then, and nothing fails.
    pub fn draw_status_line(&self) -> (status: Option<StatusLine>)
        ensures
            match status {
                Some(status) => self@.status_line() == Some(status@),
                None => self@.status_line() is None,
            },
            status is Some <==> self@.has_status_row(),
    {
        match self.clear_status_line() {
            Some(blank) => {
                let mode = self.mode();
                let mut text = String::new();
                text.append(" ");
                text.append(mode.name());
                text.append(" ");
                text.append("\u{c2}\u{2013}\u{ba}");
                assert(text@ =~= label(mode));
                let label = Line {
                    column: 0,
                    row: blank.row,
                    text,
                    style: Style {
                        foreground: Some(Color::Black),
                        background: Some(Color::Rgb { r: 225, g: 148, b: 148 }),
                        bold: true,
                    },
                };
                Some(StatusLine { blank, label })
            },
            None => None,
        }
    }

    /// One rendering of the session, on a viewport of any size: the status
    /// line is drawn if there is a row for it, then the terminal's cursor
    /// is put back on the session's cursor.
    pub fn render(&self) -> (frame: Frame)
        ensures
            frame@ == self@.frame(),
    {
        Frame { status: self.draw_status_line(), cursor: self.cursor() }
    }
}

} // verus!
