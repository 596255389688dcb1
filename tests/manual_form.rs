use tune_in::input::{InputMode, KeyCode, KeyEvent};
use tune_in::manual::{ManualPackets, PacketConfigState};
use tune_in::protocol::{manual_message, Message};
use tune_in::session::AppState;

fn press(code: KeyCode) -> KeyEvent {
    KeyEvent { code, press: true }
}

fn type_text(m: &mut ManualPackets, s: &str) {
    for c in s.chars() {
        let (state, packet) = m.key_event(press(KeyCode::Char(c)));
        assert_eq!(state, AppState::Manual);
        assert_eq!(packet, None);
    }
}

#[test]
fn enter_builds_message_from_fields() {
    let mut m = ManualPackets::new();
    type_text(&mut m, "144");
    m.key_event(press(KeyCode::Tab));
    assert_eq!(m.state(), PacketConfigState::NoteInput);
    type_text(&mut m, "60");
    m.key_event(press(KeyCode::Tab));
    type_text(&mut m, "100");
    let (state, packet) = m.key_event(press(KeyCode::Enter));
    assert_eq!(state, AppState::Manual);
    assert_eq!(packet, Some(Message { status: 0x90, note: 60, payload: 100 }));
    assert_eq!(m.command_field().text(), "");
    assert_eq!(m.note_field().text(), "");
    assert_eq!(m.velocity_field().text(), "");
}

#[test]
fn status_keeps_high_nibble_with_top_bit() {
    assert_eq!(manual_message(16, 0, 0), Some(Message { status: 0x90, note: 0, payload: 0 }));
    assert_eq!(manual_message(0x23, 1, 2), Some(Message { status: 0xA0, note: 1, payload: 2 }));
    assert_eq!(manual_message(240, 126, 126), Some(Message { status: 0xF0, note: 126, payload: 126 }));
    assert_eq!(manual_message(15, 0, 0), None);
    assert_eq!(manual_message(241, 0, 0), None);
    assert_eq!(manual_message(100, 127, 0), None);
    assert_eq!(manual_message(100, 0, 127), None);
}

#[test]
fn out_of_range_field_shows_error() {
    let mut m = ManualPackets::new();
    type_text(&mut m, "300");
    m.key_event(press(KeyCode::Tab));
    type_text(&mut m, "60");
    m.key_event(press(KeyCode::Tab));
    type_text(&mut m, "1");
    let (_, packet) = m.key_event(press(KeyCode::Enter));
    assert_eq!(packet, None);
    assert_eq!(m.command_field().mode(), InputMode::Error);
    assert_eq!(m.command_field().text(), "Not a valid value");
    assert_eq!(m.note_field().mode(), InputMode::Editing);
    assert_eq!(m.note_field().text(), "");
}

#[test]
fn empty_fields_are_errors() {
    let mut m = ManualPackets::new();
    let (_, packet) = m.key_event(press(KeyCode::Enter));
    assert_eq!(packet, None);
    assert_eq!(m.command_field().mode(), InputMode::Error);
    assert_eq!(m.note_field().mode(), InputMode::Error);
    assert_eq!(m.velocity_field().mode(), InputMode::Error);
}

#[test]
fn quit_clear_and_tab() {
    let mut m = ManualPackets::new();
    type_text(&mut m, "12");
    assert_eq!(m.key_event(press(KeyCode::Char('c'))), (AppState::Manual, None));
    assert_eq!(m.command_field().text(), "");
    m.key_event(press(KeyCode::Tab));
    m.key_event(press(KeyCode::Tab));
    assert_eq!(m.state(), PacketConfigState::VelocityInput);
    m.key_event(press(KeyCode::Tab));
    assert_eq!(m.state(), PacketConfigState::CommandInput);
    assert_eq!(m.key_event(press(KeyCode::Char('q'))), (AppState::Running, None));
    assert_eq!(m.key_event(press(KeyCode::Esc)), (AppState::Running, None));
}
