use tune_in::input::{Input, InputMode, KeyCode, KeyEvent};

fn press(code: KeyCode) -> KeyEvent {
    KeyEvent { code, press: true }
}

fn type_text(i: &mut Input, s: &str) {
    for c in s.chars() {
        assert!(!i.key_event(press(KeyCode::Char(c))));
    }
}

#[test]
fn typing_and_submitting() {
    let mut i = Input::new();
    assert_eq!(i.mode(), InputMode::Editing);
    type_text(&mut i, "9600");
    assert_eq!(i.text(), "9600");
    assert_eq!(i.get_index(), 4);
    assert_eq!(i.submit_message(), "9600");
    assert_eq!(i.text(), "");
    assert_eq!(i.cursor(), 0);
}

#[test]
fn cursor_moves_and_inserts_in_place() {
    let mut i = Input::new();
    type_text(&mut i, "ac");
    i.key_event(press(KeyCode::Left));
    type_text(&mut i, "b");
    assert_eq!(i.text(), "abc");
    assert_eq!(i.cursor(), 2);
    i.key_event(press(KeyCode::Right));
    i.key_event(press(KeyCode::Right));
    assert_eq!(i.cursor(), 3);
    for _ in 0..5 {
        i.key_event(press(KeyCode::Left));
    }
    assert_eq!(i.cursor(), 0);
}

#[test]
fn backspace_deletes_left_of_cursor() {
    let mut i = Input::new();
    type_text(&mut i, "héllo");
    i.key_event(press(KeyCode::Left));
    i.key_event(press(KeyCode::Left));
    i.key_event(press(KeyCode::Backspace));
    assert_eq!(i.text(), "hélo");
    assert_eq!(i.cursor(), 2);
    i.key_event(press(KeyCode::Left));
    i.key_event(press(KeyCode::Left));
    i.key_event(press(KeyCode::Backspace));
    assert_eq!(i.text(), "hélo");
}

#[test]
fn released_keys_are_ignored_while_editing() {
    let mut i = Input::new();
    i.key_event(KeyEvent { code: KeyCode::Char('x'), press: false });
    assert_eq!(i.text(), "");
}

#[test]
fn normal_mode_keys() {
    let mut i = Input::new();
    type_text(&mut i, "abc");
    assert!(!i.key_event(press(KeyCode::Esc)));
    assert_eq!(i.mode(), InputMode::Normal);
    i.key_event(press(KeyCode::Char('x')));
    assert_eq!(i.text(), "ab");
    i.key_event(press(KeyCode::Char('d')));
    assert_eq!(i.text(), "");
    assert!(i.key_event(press(KeyCode::Char('q'))));
    assert!(i.key_event(press(KeyCode::Esc)));
    i.key_event(press(KeyCode::Char('i')));
    assert_eq!(i.mode(), InputMode::Editing);
}

#[test]
fn error_shown_until_a_key() {
    let mut i = Input::new();
    i.display_error(String::from("Not a valid value"));
    assert_eq!(i.mode(), InputMode::Error);
    assert_eq!(i.text(), "Not a valid value");
    assert_eq!(i.get_shortcuts(), "Press any key");
    assert!(!i.key_event(press(KeyCode::Char('z'))));
    assert_eq!(i.mode(), InputMode::Editing);
    assert_eq!(i.text(), "");
}

#[test]
fn shortcuts_per_mode() {
    let mut i = Input::new();
    assert_eq!(i.get_shortcuts(), "Normal Mode: Esc | Submit: Enter | Normal Text writing");
    i.key_event(press(KeyCode::Esc));
    assert_eq!(
        i.get_shortcuts(),
        "Quit Config: q | Input Mode: i | Submit: Enter | Delet Char: Backspace/x |Clear input: d"
    );
}

#[test]
fn clear_input_empties_field() {
    let mut i = Input::new();
    type_text(&mut i, "12");
    i.clear_input();
    assert_eq!(i.text(), "");
    assert_eq!(i.cursor(), 0);
}
