//! From key presses to commands.

use vstd::prelude::*;
use crate::app::App;
use crate::cursor::Direction;

verus! {

/// The key that was pressed, as far as the editor tells keys apart.
#[derive(Debug, Clone, Copy)]
pub enum KeyCode {
    Backspace,
    Enter,
    Left,
    Right,
    Up,
    Down,
    Esc,
    Char(char),
    Other,
}

/// The modifier keys held down with a key. `other` stands for any modifier
/// besides the three named ones.
#[derive(Debug, Clone, Copy)]
pub struct KeyModifiers {
    pub shift: bool,
    pub control: bool,
    pub alt: bool,
    pub other: bool,
}

/// A key press.
#[derive(Debug, Clone, Copy)]
pub struct KeyEvent {
    pub code: KeyCode,
    pub modifiers: KeyModifiers,
}

/// What the session can be asked to do.
#[derive(Debug, Clone, Copy)]
pub enum Command {
    InsertChar(char),
    NewLine,
    Backspace,
    MoveCursor { direction: Direction, is_selecting: bool },
    JumpLineStart,
    JumpLineEnd,
    Save,
    Quit,
    EnterPrompt,
    ExitPrompt,
    Resize { width: u16, height: u16 },
    Nothing,
}

impl KeyModifiers {
    /// Control alone or Alt alone is held down.
    pub open spec fn is_chord(self) -> bool {
        ||| self.control && !self.alt && !self.shift && !self.other
        ||| self.alt && !self.control && !self.shift && !self.other
    }

    /// Whether Control alone or Alt alone is held down.
    pub fn chord(&self) -> (b: bool)
        ensures
            b == self.is_chord(),
    {
        (self.control && !self.alt && !self.shift && !self.other) || (self.alt && !self.control
            && !self.shift && !self.other)
    }
}

/// The command that a key press stands for.
///
/// With Control or Alt: `c` quits, `s` saves, the left and right arrows jump
/// to the start and the end of the line. Without: Escape leaves the prompt,
/// Enter and Backspace edit, the arrows move the cursor by one step, and a
/// character is typed. Every other key press stands for nothing.
pub open spec fn command_of(key: KeyEvent) -> Command {
    if key.modifiers.is_chord() {
        match key.code {
            KeyCode::Char(c) => if c == 'c' || c == 'C' {
                Command::Quit
            } else if c == 's' || c == 'S' {
                Command::Save
            } else {
                Command::Nothing
            },
            KeyCode::Left => Command::JumpLineStart,
            KeyCode::Right => Command::JumpLineEnd,
            _ => Command::Nothing,
        }
    } else {
        match key.code {
            KeyCode::Esc => Command::ExitPrompt,
            KeyCode::Enter => Command::NewLine,
            KeyCode::Backspace => Command::Backspace,
            KeyCode::Left => Command::MoveCursor {
                direction: Direction { x: -1i8, y: 0 },
                is_selecting: false,
            },
            KeyCode::Right => Command::MoveCursor {
                direction: Direction { x: 1, y: 0 },
                is_selecting: false,
            },
            KeyCode::Up => Command::MoveCursor {
                direction: Direction { x: 0, y: 1 },
                is_selecting: false,
            },
            KeyCode::Down => Command::MoveCursor {
                direction: Direction { x: 0, y: -1i8 },
                is_selecting: false,
            },
            KeyCode::Char(c) => Command::InsertChar(c),
            KeyCode::Other => Command::Nothing,
        }
    }
}

/// Decodes a key press into the command it stands for.
pub fn decode(key: KeyEvent) -> (command: Command)
    ensures
        command == command_of(key),
{
    if key.modifiers.chord() {
        match key.code {
            KeyCode::Char(c) => {
                if c == 'c' || c == 'C' {
                    Command::Quit
                } else if c == 's' || c == 'S' {
                    Command::Save
                } else {
                    Command::Nothing
                }
            },
            KeyCode::Left => Command::JumpLineStart,
            KeyCode::Right => Command::JumpLineEnd,
            _ => Command::Nothing,
        }
    } else {
        match key.code {
            KeyCode::Esc => Command::ExitPrompt,
            KeyCode::Enter => Command::NewLine,
            KeyCode::Backspace => Command::Backspace,
            KeyCode::Left => Command::MoveCursor {
                direction: Direction { x: -1, y: 0 },
                is_selecting: false,
            },
            KeyCode::Right => Command::MoveCursor {
                direction: Direction { x: 1, y: 0 },
                is_selecting: false,
            },
            KeyCode::Up => Command::MoveCursor {
                direction: Direction { x: 0, y: 1 },
                is_selecting: false,
            },
            KeyCode::Down => Command::MoveCursor {
                direction: Direction { x: 0, y: -1 },
                is_selecting: false,
            },
            KeyCode::Char(c) => Command::InsertChar(c),
            KeyCode::Other => Command::Nothing,
        }
    }
}

/// `after` is `before` with `command` carried out, and `content` what is
/// then to be written to the file.
///
/// An edit first marks the document as changed and starts the quit
/// countdown anew. An edit for which the machine has no room left is
/// dropped, and the session stays as it was.
pub open spec fn carried_out(
    before: App,
    command: Command,
    after: App,
    content: Option<String>,
) -> bool {
    match command {
        Command::Quit => after == before.after_quit() && content is None,
        Command::Save => App::save_asked(before, after, content),
        Command::JumpLineStart => after == before.after_jump_to_start() && content is None,
        Command::JumpLineEnd => after == before.after_jump_to_end() && content is None,
        Command::ExitPrompt => App::prompt_left(before, after) && content is None,
        Command::NewLine => if before.room_to_break() {
            App::entered(before.after_set_dirty(), after, content)
        } else {
            after == before && content is None
        },
        Command::Backspace => content is None && if before.room_to_erase() {
            App::erased(before.after_set_dirty(), after)
        } else {
            after == before
        },
        Command::MoveCursor { direction, is_selecting } => content is None && App::cursor_moved(
            before,
            direction,
            is_selecting,
            after,
        ),
        Command::EnterPrompt => App::prompt_entered(before, after) && content is None,
        Command::Resize { width, height } => after == before.after_resize(width, height)
            && content is None,
        Command::InsertChar(c) => content is None && if before.room_to_insert() {
            App::typed(before.after_set_dirty(), c, after)
        } else {
            after == before
        },
        Command::Nothing => after == before && content is None,
    }
}

/// Whatever command is carried out, and whatever the terminal's size, the
/// document afterwards still has a line, and the cursor still stands on one
/// of its lines, at one of the line's characters or right behind the last.
pub proof fn carried_out_keeps_cursor_in_document(
    before: App,
    command: Command,
    after: App,
    content: Option<String>,
)
    requires
        before.wf(),
        carried_out(before, command, after, content),
    ensures
        after.texts().len() >= 1,
        0 <= after.cursor.y() <= after.texts().len() - 1,
        0 <= after.cursor.x() <= after.line().len(),
{
    let marked = before.after_set_dirty();
    match command {
        Command::MoveCursor { direction, is_selecting } => {
            App::cursor_moved_stays_in_document(before, direction, is_selecting, after);
        },
        Command::InsertChar(c) => {
            if before.room_to_insert() {
                App::typed_stays_in_document(marked, c, after);
            }
        },
        Command::NewLine => {
            if before.room_to_break() {
                App::entered_stays_in_document(marked, after, content);
            }
        },
        Command::Backspace => {
            if before.room_to_erase() {
                App::erased_stays_in_document(marked, after);
            }
        },
        Command::JumpLineEnd => {
            before.content.always_has_a_line();
        },
        _ => {},
    }
}

/// Carries out `command` on the session. What is returned is the text to
/// write to the file named `opened_filename`, where the command led to a
/// save.
pub fn execute(command: Command, app: &mut App) -> (content: Option<String>)
    requires
        old(app).wf(),
    ensures
        final(app).wf(),
        carried_out(*old(app), command, *final(app), content),
{
    match command {
        Command::Quit => {
            app.quit();
            None
        },
        Command::Save => app.save_to_file(),
        Command::JumpLineStart => {
            app.jump_at_start_line();
            None
        },
        Command::JumpLineEnd => {
            app.jump_at_end_line();
            None
        },
        Command::ExitPrompt => {
            app.exit_prompt();
            None
        },
        Command::NewLine => {
            if app.has_room_to_break() {
                app.set_dirty();
                app.add_new_line()
            } else {
                None
            }
        },
        Command::Backspace => {
            if app.has_room_to_erase() {
                app.set_dirty();
                app.pop_char();
            }
            None
        },
        Command::MoveCursor { direction, is_selecting } => {
            app.move_cursor(direction, is_selecting);
            None
        },
        Command::EnterPrompt => {
            app.enter_prompt();
            None
        },
        Command::Resize { width, height } => {
            app.resize(width, height);
            None
        },
        Command::InsertChar(c) => {
            if app.has_room_to_insert() {
                app.set_dirty();
                app.insert_char(c);
            }
            None
        },
        Command::Nothing => None,
    }
}

/// Handles a key press: decodes it and carries out the command it stands
/// for. What is returned is the text to write to the file named
/// `opened_filename`, where the key press led to a save.
pub fn handle_key_events(key_event: KeyEvent, app: &mut App) -> (content: Option<String>)
    requires
        old(app).wf(),
    ensures
        final(app).wf(),
        carried_out(*old(app), command_of(key_event), *final(app), content),
{
    execute(decode(key_event), app)
}

} // verus!
