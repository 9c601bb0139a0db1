//! What a renderer needs to know of the session, computed from it.

use vstd::prelude::*;
use vstd::string::StringExecFns;
use crate::app::App;
use crate::cursor::Position;

verus! {

/// Whether line numbers count from the cursor's line.
pub const RELATIVE_LINES: bool = true;

/// What stands before the file's name in the status bar.
pub const FILENAME_LABEL: &'static str = "Filename: ";

/// What stands behind the name of a file with unsaved changes.
pub const MODIFIED_MARK: &'static str = " (modified)";

/// What stands behind the name of a file without unsaved changes.
pub const UNMODIFIED_MARK: &'static str = " ";

/// What the status bar says of unsaved changes to a file without a name.
pub const NOT_SAVED: &'static str = "Not saved!";

/// The state of the session as a renderer draws it.
#[derive(Debug)]
pub struct Snapshot {
    /// The texts of the lines, first to last.
    pub lines: Vec<String>,
    /// The number shown beside each line.
    pub line_numbers: Vec<usize>,
    /// The width of the line-number column.
    pub line_numbers_width: usize,
    /// Where on the screen the cursor is drawn.
    pub cursor: Position,
    /// How far the text is scrolled, per axis.
    pub scroll: Position,
    /// The cursor's position in the document.
    pub position: Position,
    /// The bottom line: what was typed into the prompt while one is open,
    /// else the status message.
    pub status: String,
    /// What the status bar says of the file.
    pub file_status: String,
    /// The name of the file.
    pub opened_filename: String,
    /// Whether there are unsaved changes.
    pub dirty: bool,
    /// Whether a prompt is open.
    pub is_prompt: bool,
}

/// The number shown beside line `i` while the cursor is on line `row`: the
/// cursor's line shows its place in the document, counted from one, and
/// every other line its distance from the cursor's line.
pub open spec fn relative_number(i: int, row: int) -> int {
    if i < row {
        row - i
    } else if i == row {
        row + 1
    } else {
        i - row
    }
}

/// The number shown beside line `i`.
pub open spec fn line_number(i: int, row: int) -> int {
    if RELATIVE_LINES {
        relative_number(i, row)
    } else {
        i + 1
    }
}

/// The numbers shown beside the `count` lines of a document while the
/// cursor is on line `row`.
pub fn line_numbers(count: usize, row: usize) -> (numbers: Vec<usize>)
    requires
        row < count,
    ensures
        numbers@.len() == count,
        forall|i: int| 0 <= i < count ==> numbers@[i] == line_number(i, row as int),
{
    let mut numbers: Vec<usize> = Vec::with_capacity(count);
    let mut i: usize = 0;
    while i < count
        invariant
            i <= count,
            row < count,
            numbers@.len() == i,
            forall|k: int| 0 <= k < i ==> numbers@[k] == line_number(k, row as int),
        decreases count - i,
    {
        let number = if !RELATIVE_LINES {
            i + 1
        } else if i < row {
            row - i
        } else if i == row {
            row + 1
        } else {
            i - row
        };
        numbers.push(number);
        i += 1;
    }
    numbers
}

/// What the status bar says of a file: its name and whether it has unsaved
/// changes; of a file without a name, only that changes are unsaved.
pub open spec fn file_status_text(filename: Seq<char>, dirty: bool) -> Seq<char> {
    if filename.len() > 0 {
        if dirty {
            FILENAME_LABEL@ + filename + MODIFIED_MARK@
        } else {
            FILENAME_LABEL@ + filename + UNMODIFIED_MARK@
        }
    } else if dirty {
        NOT_SAVED@
    } else {
        Seq::empty()
    }
}

/// Writes what the status bar says of the file.
pub fn file_status(filename: &str, dirty: bool) -> (status: String)
    ensures
        status@ == file_status_text(filename@, dirty),
{
    if !filename.is_empty() {
        let mut status = FILENAME_LABEL.to_owned();
        status.append(filename);
        if dirty {
            status.append(MODIFIED_MARK);
        } else {
            status.append(UNMODIFIED_MARK);
        }
        status
    } else if dirty {
        NOT_SAVED.to_owned()
    } else {
        String::new()
    }
}

/// Where on the screen the cursor is drawn. In the document it stands
/// right of the line-number column and its separator, one row below the
/// title. In a prompt it stands at the prompt cursor's column, one row
/// past the terminal's height. A sum that is not machine-sized stops at the
/// largest machine integer.
pub open spec fn screen_cursor_of(app: App) -> Position {
    if app.is_prompt() {
        Position { x: app.prompt_cursor() as usize, y: app.window_size.rows.saturating_add(1) }
    } else {
        Position {
            x: app.cursor.visible.x.saturating_add(
                app.content.line_numbers_width.saturating_add(1),
            ),
            y: app.cursor.visible.y.saturating_add(1),
        }
    }
}

/// Computes where on the screen the cursor is drawn.
pub fn screen_cursor(app: &App) -> (p: Position)
    ensures
        p == screen_cursor_of(*app),
{
    if app.prompt_is_open() {
        Position { x: app.prompt_column(), y: app.window_size.rows.saturating_add(1) }
    } else {
        Position {
            x: app.cursor.visible.x.saturating_add(
                app.content.line_numbers_width.saturating_add(1),
            ),
            y: app.cursor.visible.y.saturating_add(1),
        }
    }
}

/// The texts of the document's lines, first to last.
pub fn line_texts(app: &App) -> (lines: Vec<String>)
    requires
        app.wf(),
    ensures
        lines@.len() == app.texts().len(),
        forall|i: int| 0 <= i < lines@.len() ==> (#[trigger] lines@[i])@ == app.texts()[i],
{
    let mut lines: Vec<String> = Vec::new();
    let mut y: usize = 0;
    while y < app.content.line_count()
        invariant
            app.wf(),
            y <= app.texts().len(),
            lines@.len() == y,
            forall|i: int| 0 <= i < y ==> (#[trigger] lines@[i])@ == app.texts()[i],
        decreases app.texts().len() - y,
    {
        lines.push(app.content.line_text(y));
        y += 1;
    }
    lines
}

/// The bottom line: what was typed into the prompt while one is open, else
/// the status message.
pub fn status_line(app: &App) -> (line: String)
    ensures
        line@ == if app.is_prompt() {
            app.prompt()
        } else {
            app.status@
        },
{
    if app.prompt_is_open() {
        app.prompt_text()
    } else {
        app.status.clone()
    }
}

/// The state of the session as a renderer draws it.
pub fn snapshot(app: &App) -> (shot: Snapshot)
    requires
        app.wf(),
    ensures
        shot.lines@.len() == app.texts().len(),
        forall|i: int|
            0 <= i < shot.lines@.len() ==> (#[trigger] shot.lines@[i])@ == app.texts()[i],
        shot.line_numbers@.len() == app.texts().len(),
        forall|i: int|
            0 <= i < shot.line_numbers@.len() ==> shot.line_numbers@[i] == line_number(
                i,
                app.cursor.y(),
            ),
        shot.line_numbers_width == app.content.line_numbers_width,
        shot.cursor == screen_cursor_of(*app),
        shot.scroll == app.cursor.offset,
        shot.position.x == app.cursor.x(),
        shot.position.y == app.cursor.y(),
        shot.status@ == if app.is_prompt() {
            app.prompt()
        } else {
            app.status@
        },
        shot.file_status@ == file_status_text(app.opened_filename@, app.dirty),
        shot.opened_filename@ == app.opened_filename@,
        shot.dirty == app.dirty,
        shot.is_prompt == app.is_prompt(),
{
    let position = app.get_cursor_position();
    Snapshot {
        lines: line_texts(app),
        line_numbers: line_numbers(app.content.line_count(), position.y),
        line_numbers_width: app.content.line_numbers_width,
        cursor: screen_cursor(app),
        scroll: app.cursor.offset,
        position,
        status: status_line(app),
        file_status: file_status(app.opened_filename.as_str(), app.dirty),
        opened_filename: app.opened_filename.clone(),
        dirty: app.dirty,
        is_prompt: app.prompt_is_open(),
    }
}

} // verus!
