use frascii::input::{action_for, handle_key, Action, Flow, Key, KeyCode};

fn press(code: KeyCode) -> Key {
    Key { code, control_only: false, press: true }
}

#[test]
fn q_and_escape_quit() {
    assert_eq!(handle_key(press(KeyCode::Char('q'))), Flow::Quit);
    assert_eq!(handle_key(press(KeyCode::Char('Q'))), Flow::Quit);
    assert_eq!(handle_key(press(KeyCode::Esc)), Flow::Quit);
}

#[test]
fn ctrl_c_quits() {
    let key = Key { code: KeyCode::Char('c'), control_only: true, press: true };
    assert_eq!(handle_key(key), Flow::Quit);
    let key = Key { code: KeyCode::Char('C'), control_only: true, press: true };
    assert_eq!(handle_key(key), Flow::Quit);
}

#[test]
fn a_bare_c_does_not_quit() {
    assert_eq!(handle_key(press(KeyCode::Char('c'))), Flow::Continue);
}

#[test]
fn unbound_keys_continue() {
    assert_eq!(handle_key(press(KeyCode::Char('x'))), Flow::Continue);
    assert_eq!(handle_key(press(KeyCode::Other)), Flow::Continue);
}

#[test]
fn release_and_repeat_events_are_ignored() {
    for code in [KeyCode::Char('q'), KeyCode::Esc] {
        let key = Key { code, control_only: false, press: false };
        assert_eq!(handle_key(key), Flow::Continue, "{code:?}");
    }
    let key = Key { code: KeyCode::Char('c'), control_only: true, press: false };
    assert_eq!(handle_key(key), Flow::Continue);
}

#[test]
fn the_keyboard_table_binds_each_key_to_its_action() {
    let cases = [
        ('h', Action::Pan(-1, 0)),
        ('l', Action::Pan(1, 0)),
        ('k', Action::Pan(0, -1)),
        ('j', Action::Pan(0, 1)),
        ('+', Action::ZoomIn),
        ('=', Action::ZoomIn),
        ('-', Action::ZoomOut),
        ('.', Action::RaiseLimit),
        (',', Action::LowerLimit),
        ('r', Action::Reset),
        ('f', Action::NextFractal),
        ('p', Action::NextPalette),
        ('m', Action::NextMode),
        ('s', Action::NextSupersampling),
        ('?', Action::Help),
        ('i', Action::Status),
        ('c', Action::Cycling),
        ('o', Action::Orbit),
        ('z', Action::AutoZoom),
        (' ', Action::Pause),
        ('q', Action::Quit),
    ];
    for (c, action) in cases {
        assert_eq!(action_for(press(KeyCode::Char(c))), Some(action), "{c:?}");
    }
    assert_eq!(action_for(press(KeyCode::Left)), Some(Action::Pan(-1, 0)));
    assert_eq!(action_for(press(KeyCode::Up)), Some(Action::Pan(0, -1)));
    assert_eq!(action_for(press(KeyCode::Tab)), Some(Action::NextFractal));
    assert_eq!(action_for(press(KeyCode::Esc)), Some(Action::Quit));
    assert_eq!(action_for(press(KeyCode::Char('x'))), None);
    let ctrl_c = Key { code: KeyCode::Char('c'), control_only: true, press: true };
    assert_eq!(action_for(ctrl_c), Some(Action::Quit));
    assert_eq!(handle_key(press(KeyCode::Char('p'))), Flow::Continue);
}
