//! The screen with the input box: a line that is edited at a cursor, the
//! keys that edit it, and what the screen shows, as plain values.

use crate::text::{decimal, push_char, texts, to_decimal};
use vstd::prelude::*;

verus! {

/// Whether keys edit the line.
#[derive(Debug, Clone, Copy, PartialEq, Eq, Structural)]
pub enum InputMode {
    Normal,
    Editing,
}

/// One key.
#[derive(Debug, Clone, Copy, PartialEq, Eq, Structural)]
pub enum Key {
    Char(char),
    Enter,
    Backspace,
    Left,
    Right,
    Esc,
    Other,
}

/// What is to be done after a key.
#[derive(Debug, Clone, Copy, PartialEq, Eq, Structural)]
pub enum UiAction {
    /// Nothing but to draw the screen again.
    Nothing,
    /// Leave the screen.
    Quit,
    /// Send the line to the model.
    Submit,
}

/// The state of the screen: the line, the number of characters in front of
/// the cursor, the mode, the answers so far, and whether an answer is
/// awaited.
pub struct UiView {
    pub input: Seq<char>,
    pub cursor: nat,
    pub mode: InputMode,
    pub messages: Seq<Seq<char>>,
    pub busy: bool,
}

/// The smaller of two numbers.
pub open spec fn at_most(a: int, b: int) -> int {
    if a <= b {
        a
    } else {
        b
    }
}

/// The cursor never stands behind the end of the line.
pub open spec fn well_formed(s: UiView) -> bool {
    s.cursor <= s.input.len()
}

/// The position at which a cursor that was asked to stand at `position`
/// comes to stand in `input`.
pub open spec fn clamped(input: Seq<char>, position: nat) -> nat {
    at_most(position as int, input.len() as int) as nat
}

/// The state after the cursor went one character to the left.
pub open spec fn moved_left(s: UiView) -> UiView {
    UiView {
        cursor: if s.cursor == 0 {
            0
        } else {
            clamped(s.input, (s.cursor - 1) as nat)
        },
        ..s
    }
}

/// The state after the cursor went one character to the right.
pub open spec fn moved_right(s: UiView) -> UiView {
    UiView { cursor: clamped(s.input, s.cursor + 1), ..s }
}

/// The state after `c` was typed: it stands at the cursor, and the cursor
/// behind it.
pub open spec fn typed(s: UiView, c: char) -> UiView {
    let at = clamped(s.input, s.cursor);
    UiView { input: s.input.insert(at as int, c), cursor: at + 1, ..s }
}

/// The state after the character in front of the cursor was deleted.
pub open spec fn deleted(s: UiView) -> UiView {
    if s.cursor == 0 {
        s
    } else if s.cursor > s.input.len() {
        UiView { cursor: clamped(s.input, (s.cursor - 1) as nat), ..s }
    } else {
        UiView { input: s.input.remove(s.cursor - 1), cursor: (s.cursor - 1) as nat, ..s }
    }
}

/// The state after the line was handed over to be sent.
pub open spec fn submitting(s: UiView) -> UiView {
    UiView { busy: true, ..s }
}

/// The state after the model answered, or failed to: an answer joins the
/// answers, and the line is empty again.
pub open spec fn submitted(s: UiView, response: Option<Seq<char>>) -> UiView {
    UiView {
        input: Seq::empty(),
        cursor: 0,
        mode: s.mode,
        messages: match response {
            Some(r) => s.messages.push(r),
            None => s.messages,
        },
        busy: false,
    }
}

/// The state after a key. In normal mode `e` starts editing, unless an
/// answer is awaited. While editing, and only for a key that is pressed
/// while no answer is awaited, the keys edit the line and move the cursor,
/// and the escape key ends editing.
pub open spec fn after_key(s: UiView, key: Key, pressed: bool) -> UiView {
    match s.mode {
        InputMode::Normal => if key == Key::Char('e') && !s.busy {
            UiView { mode: InputMode::Editing, ..s }
        } else {
            s
        },
        InputMode::Editing => if pressed && !s.busy {
            match key {
                Key::Enter => submitting(s),
                Key::Char(c) => typed(s, c),
                Key::Backspace => deleted(s),
                Key::Left => moved_left(s),
                Key::Right => moved_right(s),
                Key::Esc => UiView { mode: InputMode::Normal, ..s },
                Key::Other => s,
            }
        } else {
            s
        },
    }
}

/// What is to be done after a key: `q` in normal mode leaves the screen,
/// the enter key sends the line while editing.
pub open spec fn action_of(s: UiView, key: Key, pressed: bool) -> UiAction {
    match s.mode {
        InputMode::Normal => if key == Key::Char('e') && !s.busy {
            UiAction::Nothing
        } else if key == Key::Char('q') {
            UiAction::Quit
        } else {
            UiAction::Nothing
        },
        InputMode::Editing => if pressed && !s.busy && key == Key::Enter {
            UiAction::Submit
        } else {
            UiAction::Nothing
        },
    }
}

/// The column of the cursor, counted from the left edge of the box: one
/// behind the characters in front of it, and no more than the largest
/// number that a column can be.
pub open spec fn cursor_column(s: UiView) -> Option<u16> {
    match s.mode {
        InputMode::Normal => None,
        InputMode::Editing => Some(
            if s.cursor < u16::MAX {
                (s.cursor + 1) as u16
            } else {
                u16::MAX
            },
        ),
    }
}

/// The answers as the screen lists them: each behind its number, counted
/// from zero, and a colon.
pub open spec fn listed(messages: Seq<Seq<char>>) -> Seq<Seq<char>>
    decreases messages.len(),
{
    if messages.len() == 0 {
        Seq::empty()
    } else {
        listed(messages.drop_last()).push(
            decimal((messages.len() - 1) as nat) + ": "@ + messages.last(),
        )
    }
}

/// What the screen shows.
#[derive(Debug, PartialEq, Eq)]
pub struct UiFrame {
    /// The line, and whether it is set off as being edited.
    pub input: String,
    pub highlighted: bool,
    /// Whether the panel that tells of the awaited answer is shown.
    pub busy: bool,
    /// The column of the cursor, where it is shown.
    pub cursor: Option<u16>,
    /// The answers, numbered.
    pub messages: Vec<String>,
}

pub struct UiFrameView {
    pub input: Seq<char>,
    pub highlighted: bool,
    pub busy: bool,
    pub cursor: Option<u16>,
    pub messages: Seq<Seq<char>>,
}

impl View for UiFrame {
    type V = UiFrameView;

    open spec fn view(&self) -> UiFrameView {
        UiFrameView {
            input: self.input@,
            highlighted: self.highlighted,
            busy: self.busy,
            cursor: self.cursor,
            messages: texts(self.messages@),
        }
    }
}

/// What the screen shows in a state.
pub open spec fn frame_of(s: UiView) -> UiFrameView {
    UiFrameView {
        input: s.input,
        highlighted: s.mode == InputMode::Editing,
        busy: s.busy,
        cursor: cursor_column(s),
        messages: listed(s.messages),
    }
}

/// The screen with the input box.
#[derive(Debug)]
pub struct App {
    input: String,
    character_index: usize,
    input_mode: InputMode,
    messages: Vec<String>,
    is_busy: bool,
}

impl View for App {
    type V = UiView;

    closed spec fn view(&self) -> UiView {
        UiView {
            input: self.input@,
            cursor: self.character_index as nat,
            mode: self.input_mode,
            messages: texts(self.messages@),
            busy: self.is_busy,
        }
    }
}

impl App {
    /// The screen before any key: an empty line, in normal mode.
    pub fn new() -> (r: Self)
        ensures
            r@ == (UiView {
                input: Seq::empty(),
                cursor: 0,
                mode: InputMode::Normal,
                messages: Seq::empty(),
                busy: false,
            }),
            well_formed(r@),
    {
        let messages: Vec<String> = Vec::new();
        assert(texts(messages@) =~= Seq::<Seq<char>>::empty());
        Self {
            input: String::new(),
            input_mode: InputMode::Normal,
            messages,
            character_index: 0,
            is_busy: false,
        }
    }

    /// The line.
    pub fn input(&self) -> (r: &str)
        ensures
            r@ == self@.input,
    {
        self.input.as_str()
    }

    /// The number of characters in front of the cursor.
    pub fn character_index(&self) -> (r: usize)
        ensures
            r == self@.cursor,
    {
        self.character_index
    }

    /// The mode.
    pub fn input_mode(&self) -> (r: InputMode)
        ensures
            r == self@.mode,
    {
        self.input_mode
    }

    /// Whether an answer is awaited.
    pub fn is_busy(&self) -> (r: bool)
        ensures
            r == self@.busy,
    {
        self.is_busy
    }

    /// The position at which a cursor that was asked to stand at
    /// `new_cursor_pos` comes to stand.
    pub fn clamp_cursor(&self, new_cursor_pos: usize) -> (r: usize)
        ensures
            r == clamped(self@.input, new_cursor_pos as nat),
    {
        let count = self.input.as_str().unicode_len();
        if new_cursor_pos <= count {
            new_cursor_pos
        } else {
            count
        }
    }

    /// Moves the cursor one character to the left.
    pub fn move_cursor_left(&mut self)
        ensures
            final(self)@ == moved_left(old(self)@),
            well_formed(final(self)@),
    {
        let cursor_moved_left = if self.character_index == 0 {
            0
        } else {
            self.character_index - 1
        };
        self.character_index = self.clamp_cursor(cursor_moved_left);
    }

    /// Moves the cursor one character to the right.
    pub fn move_cursor_right(&mut self)
        ensures
            final(self)@ == moved_right(old(self)@),
            well_formed(final(self)@),
    {
        let count = self.input.as_str().unicode_len();
        if self.character_index < count {
            self.character_index = self.character_index + 1;
        } else {
            self.character_index = count;
        }
    }

    /// The number of bytes that the characters in front of the cursor take.
    pub fn byte_index(&self) -> (r: usize)
        ensures
            r == crate::text::byte_length(
                self@.input.take(clamped(self@.input, self@.cursor) as int),
            ),
    {
        let at = self.clamp_cursor(self.character_index);
        let head = self.input.as_str().substring_char(0, at);
        crate::text::byte_len(head)
    }

    /// Puts `new_char` at the cursor, and the cursor behind it.
    pub fn enter_char(&mut self, new_char: char)
        ensures
            final(self)@ == typed(old(self)@, new_char),
            well_formed(final(self)@),
    {
        let count = self.input.as_str().unicode_len();
        let at = if self.character_index <= count {
            self.character_index
        } else {
            count
        };
        let mut line = String::from_str(self.input.as_str().substring_char(0, at));
        push_char(&mut line, new_char);
        line.append(self.input.as_str().substring_char(at, count));
        let grown = line.as_str().unicode_len();
        self.input = line;
        self.character_index = if at < grown {
            at + 1
        } else {
            grown
        };
    }

    /// Deletes the character in front of the cursor.
    pub fn delete_char(&mut self)
        ensures
            final(self)@ == deleted(old(self)@),
            well_formed(old(self)@) ==> well_formed(final(self)@),
    {
        if self.character_index != 0 {
            let count = self.input.as_str().unicode_len();
            if self.character_index > count {
                self.character_index = self.clamp_cursor(self.character_index - 1);
            } else {
                let current_index = self.character_index;
                let mut line = String::from_str(
                    self.input.as_str().substring_char(0, current_index - 1),
                );
                line.append(self.input.as_str().substring_char(current_index, count));
                self.input = line;
                self.character_index = current_index - 1;
            }
        }
    }

    /// Puts the cursor in front of the line.
    pub fn reset_cursor(&mut self)
        ensures
            final(self)@ == (UiView { cursor: 0, ..old(self)@ }),
            well_formed(final(self)@),
    {
        self.character_index = 0;
    }

    /// Hands the line over to be sent: an answer is awaited from now on.
    pub fn submit_message(&mut self) -> (r: String)
        ensures
            final(self)@ == submitting(old(self)@),
            r@ == old(self)@.input,
    {
        self.is_busy = true;
        self.input.clone()
    }

    /// Takes the model's answer, or that there is none.
    pub fn receive(&mut self, response: Option<String>)
        ensures
            final(self)@ == submitted(old(self)@, crate::ollama::text_view(response)),
            well_formed(final(self)@),
    {
        if let Some(answer) = response {
            assert(texts(self.messages@.push(answer)) =~= texts(self.messages@).push(answer@));
            self.messages.push(answer);
        }
        self.input = String::new();
        self.reset_cursor();
        self.is_busy = false;
    }

    /// Takes a key, and whether it is pressed, and says what is to be done.
    pub fn run(&mut self, key: Key, pressed: bool) -> (r: UiAction)
        ensures
            final(self)@ == after_key(old(self)@, key, pressed),
            r == action_of(old(self)@, key, pressed),
            well_formed(old(self)@) ==> well_formed(final(self)@),
    {
        match self.input_mode {
            InputMode::Normal => {
                match key {
                    Key::Char(c) => {
                        if c == 'e' && !self.is_busy {
                            self.input_mode = InputMode::Editing;
                            UiAction::Nothing
                        } else if c == 'q' {
                            UiAction::Quit
                        } else {
                            UiAction::Nothing
                        }
                    },
                    _ => UiAction::Nothing,
                }
            },
            InputMode::Editing => {
                if pressed && !self.is_busy {
                    match key {
                        Key::Enter => {
                            self.is_busy = true;
                            UiAction::Submit
                        },
                        Key::Char(to_insert) => {
                            self.enter_char(to_insert);
                            UiAction::Nothing
                        },
                        Key::Backspace => {
                            self.delete_char();
                            UiAction::Nothing
                        },
                        Key::Left => {
                            self.move_cursor_left();
                            UiAction::Nothing
                        },
                        Key::Right => {
                            self.move_cursor_right();
                            UiAction::Nothing
                        },
                        Key::Esc => {
                            self.input_mode = InputMode::Normal;
                            UiAction::Nothing
                        },
                        Key::Other => UiAction::Nothing,
                    }
                } else {
                    UiAction::Nothing
                }
            },
        }
    }

    /// What the screen shows.
    pub fn draw(&self) -> (r: UiFrame)
        ensures
            r@ == frame_of(self@),
    {
        let cursor = match self.input_mode {
            InputMode::Normal => None,
            InputMode::Editing => Some(
                if self.character_index < 65535 {
                    (self.character_index + 1) as u16
                } else {
                    65535
                },
            ),
        };
        let mut messages: Vec<String> = Vec::new();
        let mut i: usize = 0;
        while i < self.messages.len()
            invariant
                i <= self.messages.len(),
                texts(messages@) == listed(texts(self.messages@).take(i as int)),
            decreases self.messages.len() - i,
        {
            let mut item = to_decimal(i);
            item.append(": ");
            item.append(self.messages[i].as_str());
            proof {
                let all = texts(self.messages@);
                assert(all.take(i + 1).drop_last() =~= all.take(i as int));
            }
            messages.push(item);
            i += 1;
        }
        assert(texts(self.messages@).take(self.messages.len() as int) =~= texts(self.messages@));
        UiFrame {
            input: self.input.clone(),
            highlighted: self.input_mode == InputMode::Editing,
            busy: self.is_busy,
            cursor,
            messages,
        }
    }
}

} // verus!
