//! The form for messages typed in by hand: three fields (command, note,
//! velocity), one of which has the keyboard.
use vstd::prelude::*;
use crate::input::{FieldState, Input, KeyCode, KeyEvent, after_key};
use crate::protocol::{Message, manual_message, manual_message_spec};
use crate::session::AppState;
use crate::text::{chars_of, number_of, parse_number};

verus! {

/// Which field of the form has the keyboard.
#[derive(Clone, Copy, Debug, PartialEq, Eq, Structural)]
pub enum PacketConfigState {
    CommandInput,
    NoteInput,
    VelocityInput,
}

/// The field after `s`, round the three.
pub open spec fn next_field(s: PacketConfigState) -> PacketConfigState {
    match s {
        PacketConfigState::CommandInput => PacketConfigState::NoteInput,
        PacketConfigState::NoteInput => PacketConfigState::VelocityInput,
        PacketConfigState::VelocityInput => PacketConfigState::CommandInput,
    }
}

/// The byte that the text `t` spells, when it spells one within `lo..=hi`.
pub open spec fn field_byte(t: Seq<char>, lo: int, hi: int) -> Option<u8> {
    match number_of(t, 255) {
        Some(v) => if lo <= v <= hi {
            Some(v as u8)
        } else {
            None
        },
        None => None,
    }
}

/// A field once its value was read: empty when the value was good, showing
/// the error message otherwise.
pub open spec fn after_read(st: FieldState, good: bool) -> FieldState {
    if good {
        (Seq::empty(), 0, st.2)
    } else {
        ("Not a valid value"@, 0, crate::input::InputMode::Error)
    }
}

/// The message that the three texts spell, if each is in range.
pub open spec fn form_message(c: Seq<char>, n: Seq<char>, v: Seq<char>) -> Option<Message> {
    match (field_byte(c, 16, 240), field_byte(n, 0, 126), field_byte(v, 0, 126)) {
        (Some(cb), Some(nb), Some(vb)) => manual_message_spec(cb, nb, vb),
        _ => None,
    }
}

/// The form.
pub struct ManualPackets {
    config_state: PacketConfigState,
    command_input: Input,
    note_input: Input,
    velocity_input: Input,
}

/// Reads the byte in `field` (within `lo..=hi`), empties the field, and
/// shows an error in it when the text was no such byte.
fn read_field(field: &mut Input, lo: u8, hi: u8) -> (r: Option<u8>)
    requires
        old(field).wf(),
    ensures
        final(field).wf(),
        r == field_byte(old(field).spec_text(), lo as int, hi as int),
        final(field).state() == after_read(old(field).state(), r is Some),
{
    let text = field.submit_message();
    let chars = chars_of(text.as_str());
    let value = parse_number(&chars, 255);
    match value {
        Some(v) => {
            if lo <= v as u8 && v as u8 <= hi {
                return Some(v as u8);
            }
        },
        None => {},
    }
    let message = String::from_str("Not a valid value");
    proof {
        reveal_strlit("Not a valid value");
    }
    field.display_error(message);
    None
}

impl ManualPackets {
    /// Which field has the keyboard.
    pub closed spec fn spec_state(&self) -> PacketConfigState {
        self.config_state
    }

    /// The command field.
    pub closed spec fn command(&self) -> Input {
        self.command_input
    }

    /// The note field.
    pub closed spec fn note(&self) -> Input {
        self.note_input
    }

    /// The velocity field.
    pub closed spec fn velocity(&self) -> Input {
        self.velocity_input
    }

    /// The three fields are well formed.
    pub open spec fn wf(&self) -> bool {
        self.command().wf() && self.note().wf() && self.velocity().wf()
    }

    /// The field that has the keyboard.
    pub open spec fn active(&self) -> Input {
        match self.spec_state() {
            PacketConfigState::CommandInput => self.command(),
            PacketConfigState::NoteInput => self.note(),
            PacketConfigState::VelocityInput => self.velocity(),
        }
    }

    /// An empty form with the command field active.
    pub fn new() -> (r: ManualPackets)
        ensures
            r.wf(),
            r.spec_state() == PacketConfigState::CommandInput,
            r.command().state() == (Seq::<char>::empty(), 0int, crate::input::InputMode::Editing),
            r.note().state() == (Seq::<char>::empty(), 0int, crate::input::InputMode::Editing),
            r.velocity().state() == (Seq::<char>::empty(), 0int, crate::input::InputMode::Editing),
    {
        ManualPackets {
            config_state: PacketConfigState::CommandInput,
            command_input: Input::new(),
            note_input: Input::new(),
            velocity_input: Input::new(),
        }
    }

    /// Gives the keyboard to the next field.
    fn toggle_state(&mut self)
        ensures
            final(self).config_state == next_field(old(self).config_state),
            final(self).command_input == old(self).command_input,
            final(self).note_input == old(self).note_input,
            final(self).velocity_input == old(self).velocity_input,
    {
        match self.config_state {
            PacketConfigState::CommandInput => self.config_state = PacketConfigState::NoteInput,
            PacketConfigState::NoteInput => self.config_state = PacketConfigState::VelocityInput,
            PacketConfigState::VelocityInput => self.config_state = PacketConfigState::CommandInput,
        }
    }

    /// Which field has the keyboard.
    pub fn state(&self) -> (r: PacketConfigState)
        ensures
            r == self.spec_state(),
    {
        self.config_state
    }

    /// The command field.
    pub fn command_field(&self) -> (r: &Input)
        ensures
            *r == self.command(),
    {
        &self.command_input
    }

    /// The note field.
    pub fn note_field(&self) -> (r: &Input)
        ensures
            *r == self.note(),
    {
        &self.note_input
    }

    /// The velocity field.
    pub fn velocity_field(&self) -> (r: &Input)
        ensures
            *r == self.velocity(),
    {
        &self.velocity_input
    }

    /// Handles a key of the form. `q` and Esc leave it; Tab moves to the next
    /// field; `c` empties all three; Enter reads the three fields and returns
    /// the message they spell, if all are in range (a field out of range shows
    /// an error); any other key goes to the active field, which may ask to
    /// leave. Returns the screen that has the keyboard next, and the message
    /// to send.
    pub fn key_event(&mut self, key: KeyEvent) -> (r: (AppState, Option<Message>))
        requires
            old(self).wf(),
        ensures
            final(self).wf(),
            match key.code {
                KeyCode::Char('q') | KeyCode::Esc => r == (AppState::Running, None::<Message>)
                    && *final(self) == *old(self),
                KeyCode::Tab => r == (AppState::Manual, None::<Message>) && final(self).spec_state()
                    == next_field(old(self).spec_state()) && final(self).command() == old(self).command()
                    && final(self).note() == old(self).note() && final(self).velocity()
                    == old(self).velocity(),
                KeyCode::Char('c') => r == (AppState::Manual, None::<Message>)
                    && final(self).spec_state() == old(self).spec_state() && final(self).command().state()
                    == (Seq::<char>::empty(), 0int, old(self).command().spec_mode())
                    && final(self).note().state() == (Seq::<char>::empty(), 0int, old(self).note().spec_mode())
                    && final(self).velocity().state() == (Seq::<char>::empty(), 0int, old(self).velocity().spec_mode()),
                KeyCode::Enter => r.0 == AppState::Manual && r.1 == form_message(
                    old(self).command().spec_text(),
                    old(self).note().spec_text(),
                    old(self).velocity().spec_text(),
                ) && final(self).spec_state() == old(self).spec_state()
                    && final(self).command().state() == after_read(
                    old(self).command().state(),
                    field_byte(old(self).command().spec_text(), 16, 240) is Some,
                ) && final(self).note().state() == after_read(
                    old(self).note().state(),
                    field_byte(old(self).note().spec_text(), 0, 126) is Some,
                ) && final(self).velocity().state() == after_read(
                    old(self).velocity().state(),
                    field_byte(old(self).velocity().spec_text(), 0, 126) is Some,
                ),
                _ => r.1 is None && final(self).spec_state() == old(self).spec_state() && (
                final(self).active().state(),
                r.0 == AppState::Running,
                ) == after_key(old(self).active().state(), key) && (r.0 == AppState::Running || r.0
                    == AppState::Manual),
            },
    {
        let mut app_state = AppState::Manual;
        let mut packet: Option<Message> = None;
        match key.code {
            KeyCode::Char('q') | KeyCode::Esc => app_state = AppState::Running,
            KeyCode::Tab => self.toggle_state(),
            KeyCode::Char('c') => {
                self.command_input.clear_input();
                self.note_input.clear_input();
                self.velocity_input.clear_input();
            },
            KeyCode::Enter => {
                let command = read_field(&mut self.command_input, 16, 240);
                let note = read_field(&mut self.note_input, 0, 126);
                let velocity = read_field(&mut self.velocity_input, 0, 126);
                match (command, note, velocity) {
                    (Some(c), Some(n), Some(v)) => packet = manual_message(c, n, v),
                    _ => {},
                }
            },
            _ => {
                let exit = match self.config_state {
                    PacketConfigState::CommandInput => self.command_input.key_event(key),
                    PacketConfigState::NoteInput => self.note_input.key_event(key),
                    PacketConfigState::VelocityInput => self.velocity_input.key_event(key),
                };
                if exit {
                    app_state = AppState::Running;
                }
            },
        }
        (app_state, packet)
    }
}

} // verus!
