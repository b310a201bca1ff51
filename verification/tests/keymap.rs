use modal_editor::{Action, Editor, Event, Key, KeyKind, Mode, Response};

fn key(c: char) -> Event {
    Event::Key(Key::Char(c))
}

fn named_keys() -> [Key; 7] {
    [Key::Left, Key::Right, Key::Up, Key::Down, Key::Enter, Key::Esc, Key::Other]
}

fn editor_in(mode: Mode) -> Editor {
    let mut editor = Editor::new();
    assert!(editor.apply(Action::EnterMode(mode)));
    assert_eq!(editor.mode(), mode);
    editor
}

#[test]
fn command_mode_table() {
    let table = [
        (key('q'), Action::Quit),
        (key('h'), Action::MoveLeft),
        (Event::Key(Key::Left), Action::MoveLeft),
        (key('j'), Action::MoveDown),
        (Event::Key(Key::Down), Action::MoveDown),
        (key('k'), Action::MoveUp),
        (Event::Key(Key::Up), Action::MoveUp),
        (key('l'), Action::MoveRight),
        (Event::Key(Key::Right), Action::MoveRight),
        (key('i'), Action::EnterMode(Mode::Insert)),
        (key('v'), Action::EnterMode(Mode::Visual)),
    ];
    for (ev, action) in table {
        assert_eq!(Editor::handle_command_mode_event(ev), Some(action));
        let mut editor = Editor::new();
        assert_eq!(editor.handle_event(ev), Response { action: Some(action), echo: None });
        assert_eq!(editor.cursor(), (0, 0));
        assert_eq!(editor.mode(), Mode::Command);
    }
}

#[test]
fn command_mode_ignores_every_other_key() {
    let mapped = ['q', 'h', 'j', 'k', 'l', 'i', 'v'];
    let mut ignored = vec![Event::Other, Event::Key(Key::Enter), Event::Key(Key::Esc), Event::Key(Key::Other)];
    for code in 0u32..0x250 {
        if let Some(c) = char::from_u32(code) {
            if !mapped.contains(&c) {
                ignored.push(key(c));
            }
        }
    }
    ignored.push(key('Q'));
    ignored.push(key('\u{10ffff}'));
    for ev in ignored {
        assert_eq!(Editor::handle_command_mode_event(ev), None);
        let mut editor = Editor::new();
        for _ in 0..2 {
            assert_eq!(editor.handle_event(ev), Response { action: None, echo: None });
            assert_eq!(editor.cursor(), (0, 0));
            assert_eq!(editor.mode(), Mode::Command);
        }
    }
}

#[test]
fn insert_mode_table() {
    let mut editor = editor_in(Mode::Insert);
    assert_eq!(
        editor.handle_event(Event::Key(Key::Esc)),
        Response { action: Some(Action::EnterMode(Mode::Command)), echo: None }
    );
    assert_eq!(editor.mode(), Mode::Insert);
    assert_eq!(editor.cursor(), (0, 0));

    for (n, c) in ['q', 'h', 'j', ' ', '\u{e9}', '\u{1f600}'].into_iter().enumerate() {
        assert_eq!(editor.handle_event(key(c)), Response { action: None, echo: Some(c) });
        assert_eq!(editor.cursor(), (n as u16 + 1, 0));
        assert_eq!(editor.mode(), Mode::Insert);
    }

    assert_eq!(editor.handle_event(Event::Key(Key::Enter)), Response { action: None, echo: None });
    assert_eq!(editor.cursor(), (0, 1));
    assert_eq!(editor.mode(), Mode::Insert);
}

#[test]
fn insert_mode_ignores_every_other_key() {
    let mut editor = editor_in(Mode::Insert);
    editor.handle_event(key('a'));
    let ignored = [
        Event::Other,
        Event::Key(Key::Left),
        Event::Key(Key::Right),
        Event::Key(Key::Up),
        Event::Key(Key::Down),
        Event::Key(Key::Other),
    ];
    for ev in ignored {
        for _ in 0..2 {
            assert_eq!(editor.handle_event(ev), Response { action: None, echo: None });
            assert_eq!(editor.cursor(), (1, 0));
            assert_eq!(editor.mode(), Mode::Insert);
        }
    }
}

#[test]
fn insert_handler_works_the_same_in_any_mode() {
    for mode in [Mode::Command, Mode::Insert, Mode::Visual] {
        let mut editor = editor_in(mode);
        assert_eq!(editor.handle_insert_mode_event(key('x')), Response { action: None, echo: Some('x') });
        assert_eq!(editor.cursor(), (1, 0));
        assert_eq!(editor.handle_insert_mode_event(Event::Key(Key::Enter)), Response { action: None, echo: None });
        assert_eq!(editor.cursor(), (0, 1));
        assert_eq!(
            editor.handle_insert_mode_event(Event::Key(Key::Esc)),
            Response { action: Some(Action::EnterMode(Mode::Command)), echo: None }
        );
        assert_eq!(editor.handle_insert_mode_event(Event::Key(Key::Left)), Response { action: None, echo: None });
        assert_eq!(editor.handle_insert_mode_event(Event::Other), Response { action: None, echo: None });
        assert_eq!(editor.cursor(), (0, 1));
        assert_eq!(editor.mode(), mode);
    }
}

#[test]
fn visual_mode_table() {
    assert_eq!(
        Editor::handle_visual_mode_event(Event::Key(Key::Esc)),
        Some(Action::EnterMode(Mode::Command))
    );
    let mut editor = editor_in(Mode::Visual);
    assert_eq!(
        editor.handle_event(Event::Key(Key::Esc)),
        Response { action: Some(Action::EnterMode(Mode::Command)), echo: None }
    );
    assert_eq!(editor.mode(), Mode::Visual);

    let mut ignored = vec![Event::Other];
    for named in named_keys() {
        if named != Key::Esc {
            ignored.push(Event::Key(named));
        }
    }
    for c in ['q', 'h', 'j', 'k', 'l', 'i', 'v', 'x', ' '] {
        ignored.push(key(c));
    }
    for ev in ignored {
        assert_eq!(Editor::handle_visual_mode_event(ev), None);
        assert_eq!(editor.handle_event(ev), Response { action: None, echo: None });
        assert_eq!(editor.mode(), Mode::Visual);
        assert_eq!(editor.cursor(), (0, 0));
    }
}

#[test]
fn events_that_are_no_key_press_are_ignored_in_every_mode() {
    for mode in [Mode::Command, Mode::Insert, Mode::Visual] {
        let mut editor = editor_in(mode);
        assert!(editor.accepts(Event::Other));
        assert_eq!(editor.handle_event(Event::Other), Response { action: None, echo: None });
        let step = editor.step(Event::Other);
        assert!(step.go_on);
        assert_eq!(step.echo, None);
        assert_eq!(editor.mode(), mode);
        assert_eq!(editor.cursor(), (0, 0));
    }
}

#[test]
fn apply_each_action() {
    let mut editor = Editor::new();
    assert!(editor.apply(Action::MoveRight));
    assert_eq!(editor.cursor(), (1, 0));
    assert!(editor.apply(Action::MoveDown));
    assert_eq!(editor.cursor(), (1, 1));
    assert!(editor.apply(Action::MoveLeft));
    assert_eq!(editor.cursor(), (0, 1));
    assert!(editor.apply(Action::MoveLeft));
    assert_eq!(editor.cursor(), (0, 1));
    assert!(editor.apply(Action::MoveUp));
    assert_eq!(editor.cursor(), (0, 0));
    assert!(editor.apply(Action::MoveUp));
    assert_eq!(editor.cursor(), (0, 0));
    assert_eq!(editor.mode(), Mode::Command);
    for mode in [Mode::Insert, Mode::Visual, Mode::Visual, Mode::Command, Mode::Insert] {
        assert!(editor.apply(Action::EnterMode(mode)));
        assert_eq!(editor.mode(), mode);
        assert_eq!(editor.cursor(), (0, 0));
    }
    assert!(editor.apply(Action::MoveRight));
    assert!(!editor.apply(Action::Quit));
    assert_eq!(editor.mode(), Mode::Insert);
    assert_eq!(editor.cursor(), (1, 0));
}

#[test]
fn every_mode_is_reachable_from_every_mode() {
    let esc = Event::Key(Key::Esc);
    let routes = [
        (Mode::Command, Mode::Command, vec![]),
        (Mode::Command, Mode::Insert, vec![key('i')]),
        (Mode::Command, Mode::Visual, vec![key('v')]),
        (Mode::Insert, Mode::Command, vec![esc]),
        (Mode::Insert, Mode::Insert, vec![]),
        (Mode::Insert, Mode::Visual, vec![esc, key('v')]),
        (Mode::Visual, Mode::Command, vec![esc]),
        (Mode::Visual, Mode::Insert, vec![esc, key('i')]),
        (Mode::Visual, Mode::Visual, vec![]),
    ];
    for (from, to, keys) in routes {
        let mut editor = editor_in(from);
        for ev in keys {
            let response = editor.handle_event(ev);
            assert!(matches!(response.action, Some(Action::EnterMode(_))));
            assert_eq!(response.echo, None);
            assert!(editor.apply(response.action.unwrap()));
        }
        assert_eq!(editor.mode(), to);
        assert_eq!(editor.cursor(), (0, 0));
    }
}

#[test]
fn only_enter_mode_changes_the_mode() {
    for mode in [Mode::Command, Mode::Insert, Mode::Visual] {
        for action in [Action::Quit, Action::MoveUp, Action::MoveDown, Action::MoveLeft, Action::MoveRight] {
            let mut editor = editor_in(mode);
            editor.apply(action);
            assert_eq!(editor.mode(), mode);
        }
    }
}

#[test]
fn only_a_press_is_a_key_event() {
    let keys = [
        Key::Char('q'),
        Key::Char('i'),
        Key::Char('x'),
        Key::Left,
        Key::Right,
        Key::Up,
        Key::Down,
        Key::Enter,
        Key::Esc,
        Key::Other,
    ];
    for key in keys {
        assert_eq!(Event::of_key(KeyKind::Press, key), Event::Key(key));
        assert_eq!(Event::of_key(KeyKind::Repeat, key), Event::Other);
        assert_eq!(Event::of_key(KeyKind::Release, key), Event::Other);
    }
}

#[test]
fn a_key_released_is_ignored_in_every_mode() {
    let keys = [Key::Char('q'), Key::Char('i'), Key::Char('l'), Key::Enter, Key::Esc, Key::Down];
    for mode in [Mode::Command, Mode::Insert, Mode::Visual] {
        for kind in [KeyKind::Release, KeyKind::Repeat] {
            for key in keys {
                let mut editor = editor_in(mode);
                let ev = Event::of_key(kind, key);
                assert!(editor.accepts(ev));
                assert_eq!(editor.handle_event(ev), Response { action: None, echo: None });
                let step = editor.step(ev);
                assert!(step.go_on);
                assert_eq!(step.echo, None);
                assert_eq!(editor.mode(), mode);
                assert_eq!(editor.cursor(), (0, 0));
            }
        }
    }
}

#[test]
fn q_pressed_quits_and_q_released_does_not() {
    let mut editor = Editor::new();
    let released = editor.step(Event::of_key(KeyKind::Release, Key::Char('q')));
    assert!(released.go_on);
    let pressed = editor.step(Event::of_key(KeyKind::Press, Key::Char('q')));
    assert!(!pressed.go_on);
}
