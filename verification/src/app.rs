//! The edit session: the document, the cursor, and the editor-level state
//! around them, with the commands that a key press can stand for.
//!
//! What each command does is given as a relation between the session
//! before and after it, so that a caller can say what a run of commands
//! leads to.

use vstd::prelude::*;
use vstd::string::StringExecFns;
use crate::cursor::{text_rows, Cursor, RESERVED_ROWS};
use crate::document::{joined, split_lines, Document};
use crate::text::string_from_chars;

pub use crate::cursor::{Direction, Position};

verus! {

/// How often quitting has to be asked for while changes are unsaved.
pub const QUIT_TIMES: i8 = 2;

/// The status line while nothing else is to be said.
pub const DEFAULT_STATUS: &'static str = "Press Ctrl + C to quit, Ctrl + S to save.";

/// What the status line says after a save, before the file's name.
pub const SAVED_STATUS: &'static str = "Saved to ";

/// The size of the terminal, in cells.
#[derive(Debug, Clone, Copy)]
pub struct Size {
    pub rows: usize,
    pub cols: usize,
}

/// What the keys are for at the moment.
#[derive(Debug)]
pub enum Mode {
    /// The keys edit the document.
    Normal,
    /// The keys edit one line of input: `input` is what was typed so far,
    /// `cursor` the column of the cursor inside it.
    Prompt { input: Vec<char>, cursor: usize },
}

/// The state of one edit session.
///
/// `cursor` is always the cursor in the document; the cursor of an open
/// prompt lives in `mode`, so that neither ever takes the other's place.
#[derive(Debug)]
pub struct App {
    pub running: bool,
    pub content: Document,
    pub cursor: Cursor,
    pub opened_filename: String,
    pub window_size: Size,
    pub dirty: bool,
    pub quit_times: i8,
    pub mode: Mode,
    pub status: String,
    pub is_selecting: bool,
    pub selecting_position: Position,
}

impl App {
    /// The document is well formed, the cursor stands inside it, the prompt
    /// cursor stands inside the prompt, and the quit countdown is in range.
    pub open spec fn wf(&self) -> bool {
        &&& self.content.wf()
        &&& self.cursor.within(self.content@)
        &&& self.prompt_cursor() <= self.prompt().len()
        &&& 0 <= self.quit_times <= QUIT_TIMES
    }

    /// A prompt is open.
    pub open spec fn is_prompt(&self) -> bool {
        self.mode is Prompt
    }

    /// What was typed into the open prompt; nothing where none is open.
    pub open spec fn prompt(&self) -> Seq<char> {
        match self.mode {
            Mode::Normal => Seq::empty(),
            Mode::Prompt { input, cursor } => input@,
        }
    }

    /// The column of the cursor inside the open prompt; zero where none is
    /// open.
    pub open spec fn prompt_cursor(&self) -> int {
        match self.mode {
            Mode::Normal => 0,
            Mode::Prompt { input, cursor } => cursor as int,
        }
    }

    /// The same session with the prompt cursor at `column`.
    pub open spec fn with_prompt_cursor(self, column: int) -> App {
        match self.mode {
            Mode::Normal => self,
            Mode::Prompt { input, cursor } => App {
                mode: Mode::Prompt { input, cursor: column as usize },
                ..self
            },
        }
    }

    /// The texts of the document's lines.
    pub open spec fn texts(&self) -> Seq<Seq<char>> {
        self.content@
    }

    /// The text of the line the cursor is on.
    pub open spec fn line(&self) -> Seq<char> {
        self.content@[self.cursor.y()]
    }

    /// The drawable width, in columns.
    pub open spec fn width(&self) -> int {
        self.window_size.cols as int
    }

    /// The rows of the terminal that show text.
    pub open spec fn rows(&self) -> int {
        text_rows(self.window_size.rows as int)
    }

    /// A session in which nothing has happened yet: it runs, nothing is
    /// unsaved, no prompt is open, nothing is selected, the cursor stands at
    /// the origin, and the terminal's size is not known yet.
    pub open spec fn is_untouched(&self) -> bool {
        &&& self.running
        &&& self.cursor == (Cursor {
            visible: Position { x: 0, y: 0 },
            offset: Position { x: 0, y: 0 },
        })
        &&& self.window_size == (Size { rows: 0, cols: 0 })
        &&& !self.dirty
        &&& self.quit_times == QUIT_TIMES
        &&& self.mode is Normal
        &&& self.status@ == DEFAULT_STATUS@
        &&& !self.is_selecting
        &&& self.selecting_position == (Position { x: 0, y: 0 })
    }

    /// A fresh session: untouched, on one empty line, without a file name.
    pub open spec fn is_fresh(&self) -> bool {
        &&& self.is_untouched()
        &&& self.texts() == seq![Seq::<char>::empty()]
        &&& self.opened_filename@ == Seq::<char>::empty()
    }

    /// The session after a request to quit. Without unsaved changes it is
    /// over. With unsaved changes the countdown goes down by one, and the
    /// session is over once it has reached zero.
    pub open spec fn after_quit(self) -> App {
        if !self.dirty {
            App { running: false, ..self }
        } else if self.quit_times > 1 {
            App { quit_times: (self.quit_times - 1) as i8, ..self }
        } else {
            App { quit_times: 0, running: false, ..self }
        }
    }

    /// The session in a terminal of `width` columns and `height` rows.
    pub open spec fn after_resize(self, width: u16, height: u16) -> App {
        App { window_size: Size { rows: height as usize, cols: width as usize }, ..self }
    }

    /// The session marked as changed, the quit countdown started anew.
    pub open spec fn after_set_dirty(self) -> App {
        App { dirty: true, quit_times: QUIT_TIMES, ..self }
    }

    /// The session with the cursor at the end of its line; while a prompt
    /// is open, with the prompt cursor behind the last character typed.
    pub open spec fn after_jump_to_end(self) -> App {
        if self.is_prompt() {
            self.with_prompt_cursor(self.prompt().len() as int)
        } else {
            App { cursor: self.cursor.line_end(self.texts(), self.width()), ..self }
        }
    }

    /// The session with the cursor at the start of its line; while a prompt
    /// is open, with the prompt cursor before the first character typed.
    pub open spec fn after_jump_to_start(self) -> App {
        if self.is_prompt() {
            self.with_prompt_cursor(0)
        } else {
            App { cursor: self.cursor.at_line_start(), ..self }
        }
    }

    /// `after` is `before` with the prompt asked for: open and empty, or as
    /// it was where a prompt was open already.
    pub open spec fn prompt_entered(before: App, after: App) -> bool {
        if before.is_prompt() {
            after == before
        } else {
            &&& after == (App { mode: after.mode, ..before })
            &&& after.is_prompt()
            &&& after.prompt() == Seq::<char>::empty()
            &&& after.prompt_cursor() == 0
        }
    }

    /// `after` is `before` with the prompt closed and what was typed into
    /// it forgotten, or as it was where no prompt was open.
    pub open spec fn prompt_left(before: App, after: App) -> bool {
        if !before.is_prompt() {
            after == before
        } else {
            after == (App { mode: Mode::Normal, ..before })
        }
    }

    /// A save can go ahead: the file has a name and no prompt is open.
    pub open spec fn can_save(&self) -> bool {
        self.opened_filename@.len() > 0 && !self.is_prompt()
    }

    /// `after` is `before` with a save asked for, and `content` what is
    /// then to be written.
    ///
    /// Where the save can go ahead, the unsaved-changes mark is cleared,
    /// the status line names the file, and `content` is the document's
    /// lines joined by line feeds. Otherwise there is nothing to write, and
    /// the prompt is asked for.
    pub open spec fn save_asked(before: App, after: App, content: Option<String>) -> bool {
        if before.can_save() {
            &&& after == (App { dirty: false, status: after.status, ..before })
            &&& after.status@ == SAVED_STATUS@ + before.opened_filename@
            &&& content is Some
            &&& content->0@ == joined(before.texts())
        } else {
            &&& content is None
            &&& Self::prompt_entered(before, after)
        }
    }

    /// The prompt cursor after a horizontal step: one column toward the
    /// start or the end of what was typed, never past either.
    pub open spec fn prompt_moved(&self, dx: int) -> int {
        if dx < 0 && self.prompt_cursor() > 0 {
            self.prompt_cursor() - 1
        } else if dx > 0 && self.prompt_cursor() < self.prompt().len() {
            self.prompt_cursor() + 1
        } else {
            self.prompt_cursor()
        }
    }

    /// `after` is `before` with the cursor moved by `direction`.
    ///
    /// While a prompt is open only the prompt cursor moves, and only along
    /// what was typed. Outside a prompt the document cursor moves, and the
    /// first movement flagged as selecting records where the selection
    /// began. Whether anything moved or not, the quit countdown starts anew
    /// and the status line goes back to its default.
    pub open spec fn cursor_moved(
        before: App,
        direction: Direction,
        is_selection: bool,
        after: App,
    ) -> bool {
        &&& after.status@ == DEFAULT_STATUS@
        &&& if before.is_prompt() {
            after == (App {
                quit_times: QUIT_TIMES,
                status: after.status,
                ..before.with_prompt_cursor(before.prompt_moved(direction.x as int))
            })
        } else if is_selection && !before.is_selecting {
            after == (App {
                quit_times: QUIT_TIMES,
                status: after.status,
                cursor: before.cursor.moved(
                    direction,
                    before.texts(),
                    before.width(),
                    before.rows(),
                ),
                is_selecting: true,
                selecting_position: Position {
                    x: before.cursor.x() as usize,
                    y: before.cursor.y() as usize,
                },
                ..before
            })
        } else {
            after == (App {
                quit_times: QUIT_TIMES,
                status: after.status,
                cursor: before.cursor.moved(
                    direction,
                    before.texts(),
                    before.width(),
                    before.rows(),
                ),
                ..before
            })
        }
    }

    /// There is room for one more character where typing would put it.
    pub open spec fn room_to_insert(&self) -> bool {
        if self.is_prompt() {
            self.prompt().len() < usize::MAX
        } else {
            self.line().len() < usize::MAX
        }
    }

    /// `after` is `before` with `c` typed: into the prompt while one is
    /// open, else into the document at the cursor, which marks the document
    /// as changed. The cursor then stands behind `c`.
    pub open spec fn typed(before: App, c: char, after: App) -> bool {
        &&& after.status@ == DEFAULT_STATUS@
        &&& if before.is_prompt() {
            &&& after == (App {
                mode: after.mode,
                quit_times: QUIT_TIMES,
                status: after.status,
                ..before
            })
            &&& after.is_prompt()
            &&& after.prompt() == before.prompt().insert(before.prompt_cursor(), c)
            &&& after.prompt_cursor() == before.prompt_cursor() + 1
        } else {
            &&& after == (App {
                content: after.content,
                cursor: before.cursor.column_on(before.width()),
                dirty: true,
                quit_times: QUIT_TIMES,
                status: after.status,
                ..before
            })
            &&& after.texts() == before.texts().update(
                before.cursor.y(),
                before.line().insert(before.cursor.x(), c),
            )
        }
    }

    /// There is room for one more line where Enter would make one.
    pub open spec fn room_to_break(&self) -> bool {
        self.is_prompt() || self.texts().len() < usize::MAX
    }

    /// `after` is `before` with Enter pressed, and `content` what is then
    /// to be written.
    ///
    /// In the document the cursor's line is broken at the cursor, the
    /// cursor goes to the start of the new line, and the document is marked
    /// as changed. In a prompt what was typed becomes the file's name and
    /// the prompt is closed. A name that is not empty then leads to a save
    /// as `save_asked` has it; an empty one opens the prompt again.
    pub open spec fn entered(before: App, after: App, content: Option<String>) -> bool {
        if before.is_prompt() {
            &&& after == (App {
                opened_filename: after.opened_filename,
                mode: after.mode,
                dirty: before.dirty && before.prompt().len() == 0,
                status: after.status,
                ..before
            })
            &&& after.opened_filename@ == before.prompt()
            &&& after.prompt() == Seq::<char>::empty()
            &&& after.prompt_cursor() == 0
            &&& if before.prompt().len() == 0 {
                &&& content is None
                &&& after.is_prompt()
                &&& after.status == before.status
            } else {
                &&& content is Some
                &&& content->0@ == joined(before.texts())
                &&& !after.is_prompt()
                &&& after.status@ == SAVED_STATUS@ + before.prompt()
            }
        } else {
            &&& content is None
            &&& after == (App {
                content: after.content,
                cursor: before.cursor.at_line_start().row_down(before.rows()),
                dirty: true,
                quit_times: QUIT_TIMES,
                status: after.status,
                ..before
            })
            &&& after.status@ == DEFAULT_STATUS@
            &&& after.texts() == before.texts().update(
                before.cursor.y(),
                before.line().subrange(0, before.cursor.x()),
            ).insert(
                before.cursor.y() + 1,
                before.line().subrange(before.cursor.x(), before.line().len() as int),
            )
        }
    }

    /// Backspace in the document takes something out: everywhere but at
    /// the very start of the document on a line that holds text.
    pub open spec fn erases(&self) -> bool {
        ||| self.line().len() == 0
        ||| self.cursor.x() > 0
        ||| self.cursor.y() > 0
    }

    /// Backspace in the document would join two lines.
    pub open spec fn joins(&self) -> bool {
        &&& !self.is_prompt()
        &&& self.line().len() > 0
        &&& self.cursor.x() == 0
        &&& self.cursor.y() > 0
    }

    /// Where Backspace would join two lines, the joined line is
    /// machine-sized.
    pub open spec fn room_to_erase(&self) -> bool {
        self.joins() ==> self.texts()[self.cursor.y() - 1].len() + self.line().len()
            <= usize::MAX
    }

    /// The lines after Backspace in the document: an empty line is taken
    /// out, unless it is the only one; at the start of a line the line is
    /// appended to the one before; else the character before the cursor is
    /// taken out.
    pub open spec fn erased_texts(&self) -> Seq<Seq<char>> {
        let texts = self.texts();
        let x = self.cursor.x();
        let y = self.cursor.y();
        if texts[y].len() == 0 {
            if texts.len() > 1 {
                texts.remove(y)
            } else {
                texts
            }
        } else if x == 0 && y > 0 {
            texts.update(y - 1, texts[y - 1] + texts[y]).remove(y)
        } else if x > 0 {
            texts.update(y, texts[y].remove(x - 1))
        } else {
            texts
        }
    }

    /// The cursor after Backspace in the document: a line up where a line
    /// went away, at the seam where two lines were joined, a column back
    /// where a character went away.
    pub open spec fn erased_cursor(&self) -> Cursor {
        let texts = self.texts();
        let x = self.cursor.x();
        let y = self.cursor.y();
        if texts[y].len() == 0 {
            self.cursor.up(texts)
        } else if x == 0 && y > 0 {
            Cursor {
                visible: Position {
                    x: texts[y - 1].len() as usize,
                    y: self.cursor.row_up().visible.y,
                },
                offset: Position { x: 0, y: self.cursor.row_up().offset.y },
            }
        } else if x > 0 {
            self.cursor.column_back()
        } else {
            self.cursor
        }
    }

    /// `after` is `before` with Backspace pressed.
    ///
    /// In a prompt the last character typed goes away and the prompt
    /// cursor steps back; an empty prompt stays as it is. In the document
    /// what stands before the cursor goes away and the document is marked
    /// as changed; where there is nothing to take out, nothing changes.
    pub open spec fn erased(before: App, after: App) -> bool {
        if before.is_prompt() {
            if before.prompt().len() == 0 {
                after == before
            } else {
                &&& after == (App {
                    mode: after.mode,
                    quit_times: QUIT_TIMES,
                    status: after.status,
                    ..before
                })
                &&& after.is_prompt()
                &&& after.prompt() == before.prompt().drop_last()
                &&& after.prompt_cursor() == before.prompt_moved(-1)
                &&& after.status@ == DEFAULT_STATUS@
            }
        } else if before.erases() {
            &&& after == (App {
                content: after.content,
                cursor: before.erased_cursor(),
                dirty: true,
                quit_times: QUIT_TIMES,
                status: after.status,
                ..before
            })
            &&& after.texts() == before.erased_texts()
            &&& after.status@ == DEFAULT_STATUS@
        } else {
            after == before
        }
    }

    /// In a well-formed session the document has a line, and the cursor
    /// stands on one of its lines, at one of the line's characters or right
    /// behind the last. Every command keeps the session well formed, so
    /// this holds after any run of them, whatever the terminal's size.
    pub proof fn cursor_stays_in_document(self)
        requires
            self.wf(),
        ensures
            self.texts().len() >= 1,
            0 <= self.cursor.y() <= self.texts().len() - 1,
            0 <= self.cursor.x() <= self.line().len(),
    {
    }

    /// The document has a line and the cursor stands inside the document.
    pub open spec fn cursor_in_document(&self) -> bool {
        &&& self.texts().len() >= 1
        &&& self.cursor.within(self.texts())
    }

    /// Moving the cursor keeps it inside the document.
    pub proof fn cursor_moved_stays_in_document(
        before: App,
        direction: Direction,
        is_selection: bool,
        after: App,
    )
        requires
            before.wf(),
            Self::cursor_moved(before, direction, is_selection, after),
        ensures
            after.cursor_in_document(),
    {
        before.content.always_has_a_line();
        before.cursor.moved_stays_within(
            direction,
            before.texts(),
            before.width(),
            before.rows(),
        );
    }

    /// Typing keeps the cursor inside the document.
    pub proof fn typed_stays_in_document(before: App, c: char, after: App)
        requires
            before.wf(),
            before.room_to_insert(),
            Self::typed(before, c, after),
        ensures
            after.cursor_in_document(),
    {
        before.content.always_has_a_line();
    }

    /// Enter keeps the cursor inside the document.
    pub proof fn entered_stays_in_document(before: App, after: App, content: Option<String>)
        requires
            before.wf(),
            before.room_to_break(),
            Self::entered(before, after, content),
        ensures
            after.cursor_in_document(),
    {
        before.content.always_has_a_line();
    }

    /// Backspace keeps the cursor inside the document, and the document
    /// keeps a line.
    pub proof fn erased_stays_in_document(before: App, after: App)
        requires
            before.wf(),
            before.room_to_erase(),
            Self::erased(before, after),
        ensures
            after.cursor_in_document(),
    {
        before.content.always_has_a_line();
        let texts = before.texts();
        let y = before.cursor.y();
        if !before.is_prompt() && before.erases() {
            if texts[y].len() == 0 {
                if y > 0 {
                    assert(texts[y - 1].len() <= usize::MAX);
                }
            } else if before.cursor.x() == 0 && y > 0 {
                assert(texts[y - 1].len() <= usize::MAX);
            }
        }
    }

    /// Whether the session is well formed.
    pub fn is_well_formed(&self) -> (ok: bool)
        ensures
            ok == self.wf(),
    {
        let prompt_in_bounds = match &self.mode {
            Mode::Normal => true,
            Mode::Prompt { input, cursor } => *cursor <= input.len(),
        };
        self.content.is_well_formed() && self.cursor.is_within(&self.content) && prompt_in_bounds
            && 0 <= self.quit_times && self.quit_times <= QUIT_TIMES
    }

    /// A session on an empty, unnamed document.
    pub fn new() -> (app: App)
        ensures
            app.wf(),
            app.is_fresh(),
    {
        App {
            running: true,
            content: Document::new(),
            cursor: Cursor::new(),
            opened_filename: String::new(),
            window_size: Size { rows: 0, cols: 0 },
            dirty: false,
            quit_times: QUIT_TIMES,
            mode: Mode::Normal,
            status: DEFAULT_STATUS.to_owned(),
            is_selecting: false,
            selecting_position: Position { x: 0, y: 0 },
        }
    }

    /// A session on the file named `filename`, whose content is `text`:
    /// the document is `text` cut into lines at its line feeds, nothing is
    /// unsaved, and the cursor stands at the origin.
    pub fn open(filename: String, text: &str) -> (app: App)
        ensures
            app.wf(),
            app.texts() == split_lines(text@),
            app.opened_filename == filename,
            app.is_untouched(),
    {
        App {
            running: true,
            content: Document::from_text(text),
            cursor: Cursor::new(),
            opened_filename: filename,
            window_size: Size { rows: 0, cols: 0 },
            dirty: false,
            quit_times: QUIT_TIMES,
            mode: Mode::Normal,
            status: DEFAULT_STATUS.to_owned(),
            is_selecting: false,
            selecting_position: Position { x: 0, y: 0 },
        }
    }

    /// A timer tick. Nothing in the session depends on time.
    pub fn tick(&self) {
    }

    /// Takes note of the terminal's size.
    pub fn resize(&mut self, width: u16, height: u16)
        ensures
            *final(self) == old(self).after_resize(width, height),
            old(self).wf() ==> final(self).wf(),
    {
        self.window_size = Size { rows: height as usize, cols: width as usize };
    }

    /// Asks to end the session. Without unsaved changes it ends at once.
    /// With unsaved changes each request counts the countdown down by one,
    /// and the session ends with the request that brings it to zero.
    pub fn quit(&mut self)
        requires
            old(self).wf(),
        ensures
            final(self).wf(),
            *final(self) == old(self).after_quit(),
    {
        if !self.dirty {
            self.running = false;
            return ;
        }
        if self.quit_times > 0 {
            self.quit_times -= 1;
        }
        if self.quit_times <= 0 {
            self.running = false;
        }
    }

    /// Marks the document as changed and starts the quit countdown anew.
    pub fn set_dirty(&mut self)
        ensures
            *final(self) == old(self).after_set_dirty(),
            old(self).wf() ==> final(self).wf(),
    {
        self.dirty = true;
        self.reset_quit();
    }

    /// Starts the quit countdown anew.
    pub fn reset_quit(&mut self)
        ensures
            *final(self) == (App { quit_times: QUIT_TIMES, ..*old(self) }),
            old(self).wf() ==> final(self).wf(),
    {
        self.quit_times = QUIT_TIMES;
    }

    /// The cursor's position in the document.
    pub fn get_cursor_position(&self) -> (p: Position)
        requires
            self.wf(),
        ensures
            p.x == self.cursor.x(),
            p.y == self.cursor.y(),
            p.y < self.texts().len(),
            p.x <= self.line().len(),
    {
        self.cursor.logical(&self.content)
    }

    /// Whether a prompt is open.
    pub fn prompt_is_open(&self) -> (b: bool)
        ensures
            b == self.is_prompt(),
    {
        match &self.mode {
            Mode::Prompt { input, cursor } => true,
            Mode::Normal => false,
        }
    }

    /// The number of characters typed into the open prompt; zero where
    /// none is open.
    pub fn prompt_length(&self) -> (n: usize)
        ensures
            n == self.prompt().len(),
    {
        match &self.mode {
            Mode::Prompt { input, cursor } => input.len(),
            Mode::Normal => 0,
        }
    }

    /// The column of the cursor inside the open prompt; zero where none is
    /// open.
    pub fn prompt_column(&self) -> (n: usize)
        ensures
            n == self.prompt_cursor(),
    {
        match &self.mode {
            Mode::Prompt { input, cursor } => *cursor,
            Mode::Normal => 0,
        }
    }

    /// What was typed into the open prompt; nothing where none is open.
    pub fn prompt_text(&self) -> (text: String)
        ensures
            text@ == self.prompt(),
    {
        match &self.mode {
            Mode::Prompt { input, cursor } => string_from_chars(input),
            Mode::Normal => String::new(),
        }
    }

    /// Opens the prompt, empty, with its cursor at the start. An open
    /// prompt stays as it is.
    pub fn enter_prompt(&mut self)
        ensures
            Self::prompt_entered(*old(self), *final(self)),
            old(self).wf() ==> final(self).wf(),
    {
        if !self.prompt_is_open() {
            self.mode = Mode::Prompt { input: Vec::new(), cursor: 0 };
        }
    }

    /// Closes the prompt and forgets what was typed into it. Without an
    /// open prompt nothing changes.
    pub fn exit_prompt(&mut self)
        ensures
            Self::prompt_left(*old(self), *final(self)),
            old(self).wf() ==> final(self).wf(),
    {
        if self.prompt_is_open() {
            self.mode = Mode::Normal;
        }
    }

    /// The drawable width as a machine integer.
    fn columns(&self) -> (w: usize)
        ensures
            w == self.width(),
    {
        self.window_size.cols
    }

    /// The rows that show text, as a machine integer.
    fn text_rows(&self) -> (r: usize)
        ensures
            r == self.rows(),
    {
        self.window_size.rows.saturating_sub(RESERVED_ROWS)
    }

    /// What every cursor movement does besides moving: the quit countdown
    /// starts anew and the status line goes back to its default.
    fn settle(&mut self)
        ensures
            *final(self) == (App {
                quit_times: QUIT_TIMES,
                status: final(self).status,
                ..*old(self)
            }),
            final(self).status@ == DEFAULT_STATUS@,
    {
        self.reset_quit();
        self.status = DEFAULT_STATUS.to_owned();
    }

    /// Moves the cursor by `direction`; see `cursor_moved`.
    pub fn move_cursor(&mut self, direction: Direction, is_selection: bool)
        requires
            old(self).wf(),
        ensures
            final(self).wf(),
            Self::cursor_moved(*old(self), direction, is_selection, *final(self)),
    {
        self.settle();
        match &mut self.mode {
            Mode::Prompt { input, cursor } => {
                if direction.x < 0 && *cursor > 0 {
                    *cursor -= 1;
                } else if direction.x > 0 && input.len() > *cursor {
                    *cursor += 1;
                }
                return ;
            },
            Mode::Normal => {},
        }
        if is_selection && !self.is_selecting {
            self.is_selecting = true;
            self.selecting_position = self.get_cursor_position();
        }
        let width = self.columns();
        let rows = self.text_rows();
        self.cursor.move_by(direction, &self.content, width, rows);
    }

    /// Puts the cursor behind the last character of its line; while a
    /// prompt is open, behind the last character typed.
    pub fn jump_at_end_line(&mut self)
        requires
            old(self).wf(),
        ensures
            final(self).wf(),
            *final(self) == old(self).after_jump_to_end(),
            !old(self).is_prompt() ==> final(self).cursor.x() == old(self).line().len()
                && final(self).cursor.y() == old(self).cursor.y(),
    {
        match &mut self.mode {
            Mode::Prompt { input, cursor } => {
                *cursor = input.len();
                return ;
            },
            Mode::Normal => {},
        }
        let width = self.columns();
        self.cursor.jump_to_line_end(&self.content, width);
    }

    /// Puts the cursor before the first character of its line, unscrolled;
    /// while a prompt is open, before the first character typed.
    pub fn jump_at_start_line(&mut self)
        requires
            old(self).wf(),
        ensures
            final(self).wf(),
            *final(self) == old(self).after_jump_to_start(),
    {
        match &mut self.mode {
            Mode::Prompt { input, cursor } => {
                *cursor = 0;
                return ;
            },
            Mode::Normal => {},
        }
        self.cursor.jump_to_line_start();
    }

    /// Asks for a save; see `save_asked`. What is returned is the text to
    /// write to the file named `opened_filename`.
    pub fn save_to_file(&mut self) -> (content: Option<String>)
        requires
            old(self).wf(),
        ensures
            final(self).wf(),
            Self::save_asked(*old(self), *final(self), content),
    {
        if self.opened_filename.as_str().is_empty() || self.prompt_is_open() {
            self.enter_prompt();
            return None;
        }
        self.dirty = false;
        let mut status = SAVED_STATUS.to_owned();
        status.append(self.opened_filename.as_str());
        self.status = status;
        Some(self.content.to_text())
    }

    /// Whether there is room for one more character where typing would put
    /// it.
    pub fn has_room_to_insert(&self) -> (b: bool)
        requires
            self.wf(),
        ensures
            b == self.room_to_insert(),
    {
        match &self.mode {
            Mode::Prompt { input, cursor } => input.len() < usize::MAX,
            Mode::Normal => {
                let pos = self.get_cursor_position();
                self.content.line_length(pos.y) < usize::MAX
            },
        }
    }

    /// Types `c`; see `typed`.
    pub fn insert_char(&mut self, c: char)
        requires
            old(self).wf(),
            old(self).room_to_insert(),
        ensures
            final(self).wf(),
            Self::typed(*old(self), c, *final(self)),
    {
        match &mut self.mode {
            Mode::Prompt { input, cursor } => {
                input.insert(*cursor, c);
                self.move_cursor(Direction { x: 1, y: 0 }, false);
                return ;
            },
            Mode::Normal => {},
        }
        let pos = self.get_cursor_position();
        self.content.insert_char(pos.y, pos.x, c);
        self.dirty = true;
        self.move_cursor(Direction { x: 1, y: 0 }, false);
    }

    /// Whether there is room for one more line where Enter would make one.
    pub fn has_room_to_break(&self) -> (b: bool)
        ensures
            b == self.room_to_break(),
    {
        self.prompt_is_open() || self.content.line_count() < usize::MAX
    }

    /// The Enter key; see `entered`. What is returned is the text to write
    /// to the file named `opened_filename`.
    pub fn add_new_line(&mut self) -> (content: Option<String>)
        requires
            old(self).wf(),
            old(self).room_to_break(),
        ensures
            final(self).wf(),
            Self::entered(*old(self), *final(self), content),
    {
        match &self.mode {
            Mode::Prompt { input, cursor } => {
                self.opened_filename = string_from_chars(input);
                self.exit_prompt();
                return self.save_to_file();
            },
            Mode::Normal => {},
        }
        let pos = self.get_cursor_position();
        self.content.split_line(pos.y, pos.x);
        self.dirty = true;
        self.cursor.jump_to_line_start();
        self.move_cursor(Direction { x: 0, y: -1 }, false);
        None
    }

    /// Whether, where Backspace would join two lines, the joined line is
    /// machine-sized.
    pub fn has_room_to_erase(&self) -> (b: bool)
        requires
            self.wf(),
        ensures
            b == self.room_to_erase(),
    {
        if self.prompt_is_open() {
            return true;
        }
        let pos = self.get_cursor_position();
        let len = self.content.line_length(pos.y);
        if len > 0 && pos.x == 0 && pos.y > 0 {
            self.content.line_length(pos.y - 1) <= usize::MAX - len
        } else {
            true
        }
    }

    /// The Backspace key; see `erased`.
    pub fn pop_char(&mut self)
        requires
            old(self).wf(),
            old(self).room_to_erase(),
        ensures
            final(self).wf(),
            Self::erased(*old(self), *final(self)),
    {
        if self.prompt_is_open() {
            if self.prompt_length() == 0 {
                return ;
            }
            self.move_cursor(Direction { x: -1, y: 0 }, false);
            match &mut self.mode {
                Mode::Prompt { input, cursor } => {
                    input.pop();
                },
                Mode::Normal => {},
            }
            return ;
        }
        let pos = self.get_cursor_position();
        if self.content.line_length(pos.y) == 0 {
            self.move_cursor(Direction { x: 0, y: 1 }, false);
            self.content.remove_line(pos.y);
            self.dirty = true;
            assert(old(self).line() =~= Seq::<char>::empty());
            assert(self.texts() =~= old(self).erased_texts());
        } else if pos.x == 0 && pos.y > 0 {
            let seam = self.content.line_length(pos.y - 1);
            self.move_cursor(Direction { x: 0, y: 1 }, false);
            self.cursor.visible.x = seam;
            self.cursor.offset.x = 0;
            self.content.join_line_into_previous(pos.y);
            self.dirty = true;
        } else if pos.x > 0 {
            self.move_cursor(Direction { x: -1, y: 0 }, false);
            self.content.remove_char(pos.y, pos.x - 1);
            self.dirty = true;
        }
    }
}

impl Default for App {
    /// A session on an empty, unnamed document.
    fn default() -> (app: App)
        ensures
            app.wf(),
            app.is_fresh(),
    {
        App::new()
    }
}

} // verus!
