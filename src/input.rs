//! A one-line text field: the text, a cursor counted in characters, and a
//! mode (editing, moving around, or showing an error).
use vstd::prelude::*;
use crate::text::{chars_of, string_of};

verus! {

/// The keys the program tells apart.
#[derive(Clone, Copy, Debug, PartialEq, Eq, Structural)]
pub enum KeyCode {
    Char(char),
    Backspace,
    Enter,
    Left,
    Right,
    Up,
    Down,
    Tab,
    Esc,
    Other,
}

/// A key event: the key, and whether it was pressed (rather than released
/// or repeated).
#[derive(Clone, Copy, Debug, PartialEq, Eq, Structural)]
pub struct KeyEvent {
    pub code: KeyCode,
    pub press: bool,
}

/// What the field is doing.
#[derive(Clone, Copy, Debug, PartialEq, Eq, Structural)]
pub enum InputMode {
    /// Moving around the text.
    Normal,
    /// Showing an error message.
    Error,
    /// Writing text.
    Editing,
}

/// The cursor one character to the left, if there is room.
pub open spec fn cursor_left(cursor: int) -> int {
    if cursor > 0 {
        cursor - 1
    } else {
        0
    }
}

/// The cursor one character to the right, at most at the end of `len`
/// characters.
pub open spec fn cursor_right(cursor: int, len: int) -> int {
    if cursor + 1 <= len {
        cursor + 1
    } else {
        len
    }
}

/// The state of a field as (text, cursor, mode).
pub type FieldState = (Seq<char>, int, InputMode);

/// The field `st` after the character at the left of the cursor is deleted;
/// nothing happens at the start of the text.
pub open spec fn after_delete(st: FieldState) -> FieldState {
    let (t, c, m) = st;
    if c != 0 {
        (t.remove(c - 1), c - 1, m)
    } else {
        st
    }
}

/// The field `st` after the key `key`, and whether the key asks to leave it.
pub open spec fn after_key(st: FieldState, key: KeyEvent) -> (FieldState, bool) {
    let (t, c, m) = st;
    match m {
        InputMode::Normal => match key.code {
            KeyCode::Char('q') | KeyCode::Esc => (st, true),
            KeyCode::Char('i') => ((t, c, InputMode::Editing), false),
            KeyCode::Backspace | KeyCode::Char('x') => (after_delete(st), false),
            KeyCode::Char('d') => ((Seq::empty(), 0, m), false),
            _ => (st, false),
        },
        InputMode::Error => ((Seq::empty(), 0, InputMode::Editing), false),
        InputMode::Editing => if !key.press {
            (st, false)
        } else {
            match key.code {
                KeyCode::Char(ch) => ((t.insert(c, ch), c + 1, m), false),
                KeyCode::Backspace => (after_delete(st), false),
                KeyCode::Left => ((t, cursor_left(c), m), false),
                KeyCode::Right => ((t, cursor_right(c, t.len() as int), m), false),
                KeyCode::Esc => ((t, c, InputMode::Normal), false),
                _ => (st, false),
            }
        },
    }
}

/// The text field.
pub struct Input {
    input: Vec<char>,
    character_index: usize,
    input_mode: InputMode,
}

impl Input {
    /// The field's text.
    pub closed spec fn spec_text(&self) -> Seq<char> {
        self.input@
    }

    /// The cursor, in characters from the start of the text.
    pub closed spec fn spec_cursor(&self) -> int {
        self.character_index as int
    }

    /// The field's mode.
    pub closed spec fn spec_mode(&self) -> InputMode {
        self.input_mode
    }

    /// The field as (text, cursor, mode).
    pub open spec fn state(&self) -> FieldState {
        (self.spec_text(), self.spec_cursor(), self.spec_mode())
    }

    /// Outside an error message, the cursor stands within the text.
    pub open spec fn wf(&self) -> bool {
        self.spec_mode() != InputMode::Error ==> self.spec_cursor() <= self.spec_text().len()
    }

    /// An empty field, in editing mode.
    pub fn new() -> (r: Input)
        ensures
            r.wf(),
            r.state() == (Seq::<char>::empty(), 0int, InputMode::Editing),
    {
        Input { input: Vec::new(), input_mode: InputMode::Editing, character_index: 0 }
    }

    /// `new_cursor_pos`, but at most the length of the text.
    fn clamp_cursor(&self, new_cursor_pos: usize) -> (r: usize)
        ensures
            r == if new_cursor_pos <= self.input@.len() {
                new_cursor_pos as int
            } else {
                self.input@.len() as int
            },
    {
        if new_cursor_pos <= self.input.len() {
            new_cursor_pos
        } else {
            self.input.len()
        }
    }

    fn move_cursor_left(&mut self)
        ensures
            final(self).input@ == old(self).input@,
            final(self).input_mode == old(self).input_mode,
            final(self).character_index as int == if cursor_left(old(self).character_index as int)
                <= old(self).input@.len() {
                cursor_left(old(self).character_index as int)
            } else {
                old(self).input@.len() as int
            },
    {
        let cursor_moved_left = self.character_index.saturating_sub(1);
        self.character_index = self.clamp_cursor(cursor_moved_left);
    }

    fn move_cursor_right(&mut self)
        ensures
            final(self).input@ == old(self).input@,
            final(self).input_mode == old(self).input_mode,
            old(self).character_index <= old(self).input@.len() ==> final(self).character_index as int
                == cursor_right(old(self).character_index as int, old(self).input@.len() as int),
    {
        // The text's length, a usize, bounds the cursor below usize::MAX.
        let _len = self.input.len();
        let cursor_moved_right = self.character_index.saturating_add(1);
        self.character_index = self.clamp_cursor(cursor_moved_right);
    }

    fn enter_char(&mut self, new_char: char)
        requires
            old(self).character_index <= old(self).input@.len(),
        ensures
            final(self).input@ == old(self).input@.insert(old(self).character_index as int, new_char),
            final(self).character_index == old(self).character_index + 1,
            final(self).input_mode == old(self).input_mode,
    {
        let index = self.character_index;
        self.input.insert(index, new_char);
        self.move_cursor_right();
    }

    fn delete_char(&mut self)
        requires
            old(self).character_index <= old(self).input@.len(),
        ensures
            final(self).state() == after_delete(old(self).state()),
    {
        let is_not_cursor_leftmost = self.character_index != 0;
        if is_not_cursor_leftmost {
            let from_left_to_current_index = self.character_index - 1;
            self.input.remove(from_left_to_current_index);
            self.move_cursor_left();
        }
    }

    fn reset_cursor(&mut self)
        ensures
            final(self).input@ == old(self).input@,
            final(self).input_mode == old(self).input_mode,
            final(self).character_index == 0,
    {
        self.character_index = 0;
    }

    /// Empties the text and puts the cursor at its start.
    pub fn clear_input(&mut self)
        ensures
            final(self).wf(),
            final(self).state() == (Seq::<char>::empty(), 0int, old(self).spec_mode()),
    {
        self.input.clear();
        self.reset_cursor();
    }

    /// Shows `message` in the field as an error.
    pub fn display_error(&mut self, message: String)
        ensures
            final(self).wf(),
            final(self).state() == (message@, old(self).spec_cursor(), InputMode::Error),
    {
        self.input = chars_of(message.as_str());
        self.input_mode = InputMode::Error;
    }

    /// Takes the text out of the field: returns it, and leaves the field
    /// empty with the cursor at the start.
    pub fn submit_message(&mut self) -> (r: String)
        requires
            old(self).wf(),
        ensures
            final(self).wf(),
            r@ == old(self).spec_text(),
            final(self).state() == (Seq::<char>::empty(), 0int, old(self).spec_mode()),
    {
        let tmp_input = string_of(&self.input);
        self.input.clear();
        self.reset_cursor();
        tmp_input
    }

    /// Handles a key. Returns whether the key asks to leave the field.
    pub fn key_event(&mut self, key: KeyEvent) -> (r: bool)
        requires
            old(self).wf(),
        ensures
            final(self).wf(),
            (final(self).state(), r) == after_key(old(self).state(), key),
    {
        let mut should_exit = false;
        match self.input_mode {
            InputMode::Normal => match key.code {
                KeyCode::Char('q') | KeyCode::Esc => {
                    should_exit = true;
                },
                KeyCode::Char('i') => {
                    self.input_mode = InputMode::Editing;
                },
                KeyCode::Backspace | KeyCode::Char('x') => self.delete_char(),
                KeyCode::Char('d') => {
                    self.input.clear();
                    self.reset_cursor();
                },
                _ => {},
            },
            InputMode::Error => {
                self.input_mode = InputMode::Editing;
                self.input.clear();
                self.reset_cursor();
            },
            InputMode::Editing => {
                if key.press {
                    match key.code {
                        KeyCode::Char(to_insert) => self.enter_char(to_insert),
                        KeyCode::Backspace => self.delete_char(),
                        KeyCode::Left => self.move_cursor_left(),
                        KeyCode::Right => self.move_cursor_right(),
                        KeyCode::Esc => self.input_mode = InputMode::Normal,
                        _ => {},
                    }
                }
            },
        }
        should_exit
    }

    /// The field's text.
    pub fn text(&self) -> (r: String)
        ensures
            r@ == self.spec_text(),
    {
        string_of(&self.input)
    }

    /// The field's mode.
    pub fn mode(&self) -> (r: InputMode)
        ensures
            r == self.spec_mode(),
    {
        self.input_mode
    }

    /// The cursor, in characters from the start of the text.
    pub fn cursor(&self) -> (r: usize)
        ensures
            r == self.spec_cursor(),
    {
        self.character_index
    }

    /// The cursor as a screen column offset.
    pub fn get_index(&self) -> (r: u16)
        requires
            self.spec_cursor() <= u16::MAX,
        ensures
            r == self.spec_cursor(),
    {
        self.character_index as u16
    }

    /// The key bindings of the field's mode, for the help line.
    pub fn get_shortcuts(&self) -> (r: &str)
        ensures
            self.spec_mode() == InputMode::Editing ==> r@
                == "Normal Mode: Esc | Submit: Enter | Normal Text writing"@,
            self.spec_mode() == InputMode::Normal ==> r@
                == "Quit Config: q | Input Mode: i | Submit: Enter | Delet Char: Backspace/x |Clear input: d"@,
            self.spec_mode() == InputMode::Error ==> r@ == "Press any key"@,
    {
        match self.input_mode {
            InputMode::Editing => "Normal Mode: Esc | Submit: Enter | Normal Text writing",
            InputMode::Normal => "Quit Config: q | Input Mode: i | Submit: Enter | Delet Char: Backspace/x |Clear input: d",
            InputMode::Error => "Press any key",
        }
    }
}

} // verus!
