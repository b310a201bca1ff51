use modal_editor::{Action, Color, Editor, Frame, Line, Mode, StatusLine, Style};

const PLAIN: Style = Style { foreground: None, background: None, bold: false };
const BAR: Style = Style {
    foreground: None,
    background: Some(Color::Rgb { r: 225, g: 148, b: 148 }),
    bold: false,
};
const LABEL: Style = Style {
    foreground: Some(Color::Black),
    background: Some(Color::Rgb { r: 225, g: 148, b: 148 }),
    bold: true,
};

fn editor_on(size: (u16, u16)) -> Editor {
    let mut editor = Editor::new();
    editor.start(size, &[]);
    editor
}

fn label_of(mode: Mode) -> String {
    format!(" {:?} {}", mode, "\u{e2}\u{2013}\u{ba}".to_uppercase()).to_uppercase()
}

#[test]
fn mode_names() {
    assert_eq!(Mode::Command.name(), "COMMAND");
    assert_eq!(Mode::Insert.name(), "INSERT");
    assert_eq!(Mode::Visual.name(), "VISUAL");
}

#[test]
fn status_row_is_the_last_but_one() {
    assert_eq!(editor_on((80, 24)).status_row(), Some(22));
    assert_eq!(editor_on((80, 2)).status_row(), Some(0));
    assert_eq!(editor_on((0, 3)).status_row(), Some(1));
    assert_eq!(editor_on((80, 65535)).status_row(), Some(65533));
}

#[test]
fn a_viewport_of_fewer_than_two_rows_has_no_status_line() {
    let mut editors = vec![Editor::new()];
    for size in [(0, 0), (80, 0), (80, 1), (0, 1), (65535, 1)] {
        editors.push(editor_on(size));
    }
    for mut editor in editors {
        editor.apply(Action::MoveRight);
        editor.apply(Action::MoveDown);
        editor.apply(Action::MoveDown);
        assert_eq!(editor.status_row(), None);
        assert_eq!(editor.clear_status_line(), None);
        assert_eq!(editor.clear_stylized_status_line(), None);
        assert_eq!(editor.draw_status_line(), None);
        assert_eq!(editor.render(), Frame { status: None, cursor: (1, 2) });
        assert_eq!(editor.cursor(), (1, 2));
    }
}

#[test]
fn a_fresh_editor_renders_only_its_cursor() {
    let editor = Editor::new();
    assert_eq!(editor.window_size(), (0, 0));
    assert_eq!(editor.draw_status_line(), None);
    assert_eq!(editor.render(), Frame { status: None, cursor: (0, 0) });
}

#[test]
fn clearing_writes_blanks_across_the_row() {
    let line = editor_on((5, 24)).clear_status_line();
    assert_eq!(line, Some(Line { column: 0, row: 22, text: "     ".to_string(), style: PLAIN }));
    let line = editor_on((0, 2)).clear_status_line();
    assert_eq!(line, Some(Line { column: 0, row: 0, text: String::new(), style: PLAIN }));
    let line = editor_on((65535, 10)).clear_status_line().unwrap();
    assert_eq!(line.text, " ".repeat(65535));
    assert_eq!(line.row, 8);
}

#[test]
fn clearing_to_a_bar_paints_the_background() {
    let line = editor_on((4, 10)).clear_stylized_status_line();
    assert_eq!(line, Some(Line { column: 0, row: 8, text: "    ".to_string(), style: BAR }));
}

#[test]
fn status_label_of_each_mode() {
    let expected = [
        (Mode::Command, " COMMAND \u{c2}\u{2013}\u{ba}"),
        (Mode::Insert, " INSERT \u{c2}\u{2013}\u{ba}"),
        (Mode::Visual, " VISUAL \u{c2}\u{2013}\u{ba}"),
    ];
    for (mode, text) in expected {
        let mut editor = editor_on((3, 24));
        editor.apply(Action::EnterMode(mode));
        let status = editor.draw_status_line().unwrap();
        assert_eq!(
            status,
            StatusLine {
                blank: Line { column: 0, row: 22, text: "   ".to_string(), style: PLAIN },
                label: Line { column: 0, row: 22, text: text.to_string(), style: LABEL },
            }
        );
        assert_eq!(status.label.text, label_of(mode));
    }
}

#[test]
fn a_frame_is_the_status_line_and_the_cursor() {
    let mut editor = editor_on((2, 5));
    editor.apply(Action::MoveRight);
    editor.apply(Action::MoveRight);
    editor.apply(Action::MoveRight);
    editor.apply(Action::MoveDown);
    editor.apply(Action::EnterMode(Mode::Insert));
    let frame = editor.render();
    assert_eq!(
        frame,
        Frame {
            status: Some(StatusLine {
                blank: Line { column: 0, row: 3, text: "  ".to_string(), style: PLAIN },
                label: Line {
                    column: 0,
                    row: 3,
                    text: " INSERT \u{c2}\u{2013}\u{ba}".to_string(),
                    style: LABEL,
                },
            }),
            cursor: (3, 1),
        }
    );
    assert_eq!(editor.render(), frame);
    assert_eq!(editor.cursor(), (3, 1));
    assert_eq!(editor.mode(), Mode::Insert);
}
