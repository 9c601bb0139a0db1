//! The cursor and viewport model.
//!
//! The editing point is kept per axis as two parts: where the cursor stands
//! inside the drawable region, and how far the region is scrolled away from
//! the document's origin. Their sum is the position in the document.

use vstd::prelude::*;
use crate::document::{machine_sized, Document};

verus! {

/// Rows of the terminal that are not available to the text.
pub const RESERVED_ROWS: usize = 4;

/// A movement request: per axis, negative, zero or positive.
///
/// On the horizontal axis negative is toward the start of the line. The
/// vertical axis is inverted: positive is toward the first line.
#[derive(Debug, Clone, Copy)]
pub struct Direction {
    pub x: i8,
    pub y: i8,
}

/// A column and a row.
#[derive(Debug, Clone, Copy)]
pub struct Position {
    pub x: usize,
    pub y: usize,
}

/// The editing point: a position inside the drawable region and the scroll
/// offset of that region.
#[derive(Debug, Clone, Copy)]
pub struct Cursor {
    pub visible: Position,
    pub offset: Position,
}

/// The smaller of two lengths.
pub open spec fn smaller(a: int, b: int) -> int {
    if a < b {
        a
    } else {
        b
    }
}

/// The rows left to the text in a terminal of `height` rows.
pub open spec fn text_rows(height: int) -> int {
    if height > RESERVED_ROWS {
        height - RESERVED_ROWS
    } else {
        0
    }
}

impl Cursor {
    /// The column in the document.
    pub open spec fn x(self) -> int {
        self.visible.x + self.offset.x
    }

    /// The row in the document.
    pub open spec fn y(self) -> int {
        self.visible.y + self.offset.y
    }

    /// The cursor stands on a line of the document, at one of its
    /// characters or right behind the last.
    pub open spec fn within(self, texts: Seq<Seq<char>>) -> bool {
        &&& self.y() < texts.len()
        &&& self.x() <= texts[self.y()].len()
    }

    /// One column toward the start of the line: the visible part steps back
    /// while it can, then the scroll offset does.
    pub open spec fn column_back(self) -> Cursor {
        if self.visible.x > 0 {
            Cursor {
                visible: Position { x: (self.visible.x - 1) as usize, y: self.visible.y },
                offset: self.offset,
            }
        } else {
            Cursor {
                visible: self.visible,
                offset: Position { x: (self.offset.x - 1) as usize, y: self.offset.y },
            }
        }
    }

    /// One column toward the end of the line: the visible part steps on
    /// while there is room before the right edge, then the region scrolls.
    pub open spec fn column_on(self, width: int) -> Cursor {
        if width > self.visible.x + 1 {
            Cursor {
                visible: Position { x: (self.visible.x + 1) as usize, y: self.visible.y },
                offset: self.offset,
            }
        } else {
            Cursor {
                visible: self.visible,
                offset: Position { x: (self.offset.x + 1) as usize, y: self.offset.y },
            }
        }
    }

    /// One row toward the first line: the visible part steps up while it
    /// can, then the scroll offset does.
    pub open spec fn row_up(self) -> Cursor {
        if self.visible.y > 0 {
            Cursor {
                visible: Position { x: self.visible.x, y: (self.visible.y - 1) as usize },
                offset: self.offset,
            }
        } else {
            Cursor {
                visible: self.visible,
                offset: Position { x: self.offset.x, y: (self.offset.y - 1) as usize },
            }
        }
    }

    /// One row toward the last line: the visible part steps down while the
    /// `rows` of the text region have room, then the region scrolls.
    pub open spec fn row_down(self, rows: int) -> Cursor {
        if rows > self.visible.y {
            Cursor {
                visible: Position { x: self.visible.x, y: (self.visible.y + 1) as usize },
                offset: self.offset,
            }
        } else {
            Cursor {
                visible: self.visible,
                offset: Position { x: self.offset.x, y: (self.offset.y + 1) as usize },
            }
        }
    }

    /// The column cut back to a line of `len` characters. A cursor that had
    /// to be cut back loses its horizontal scroll.
    pub open spec fn clamped(self, len: int) -> Cursor {
        if self.x() > len {
            Cursor {
                visible: Position { x: len as usize, y: self.visible.y },
                offset: Position { x: 0, y: self.offset.y },
            }
        } else {
            self
        }
    }

    /// The column set to the end of a line of `len` characters, as far into
    /// the drawable `width` as the line reaches, the rest scrolled.
    pub open spec fn at_line_end(self, len: int, width: int) -> Cursor {
        Cursor {
            visible: Position { x: smaller(len, width) as usize, y: self.visible.y },
            offset: Position { x: (len - smaller(len, width)) as usize, y: self.offset.y },
        }
    }

    /// The column set to the start of the line, unscrolled.
    pub open spec fn at_line_start(self) -> Cursor {
        Cursor {
            visible: Position { x: 0, y: self.visible.y },
            offset: Position { x: 0, y: self.offset.y },
        }
    }

    /// A step toward the start of the line. At column zero of a line that
    /// is not the first, the cursor wraps to the end of the line before.
    /// At the start of the document it stays.
    pub open spec fn left(self, texts: Seq<Seq<char>>, width: int) -> Cursor {
        if self.x() > 0 {
            self.column_back()
        } else if self.y() > 0 {
            self.row_up().at_line_end(texts[self.y() - 1].len() as int, width)
        } else {
            self
        }
    }

    /// A step toward the end of the line. Behind the last character of a
    /// line that is not the last, the cursor wraps to the start of the next
    /// line. At the end of the document it stays.
    pub open spec fn right(self, texts: Seq<Seq<char>>, width: int, rows: int) -> Cursor {
        if self.x() < texts[self.y()].len() {
            self.column_on(width)
        } else if self.x() == texts[self.y()].len() && self.y() + 1 < texts.len() {
            self.at_line_start().row_down(rows)
        } else {
            self
        }
    }

    /// A step toward the first line, the column cut back to the new line.
    /// On the first line the cursor stays.
    pub open spec fn up(self, texts: Seq<Seq<char>>) -> Cursor {
        if self.y() > 0 {
            self.row_up().clamped(texts[self.y() - 1].len() as int)
        } else {
            self
        }
    }

    /// A step toward the last line, the column cut back to the new line.
    /// On the last line the cursor stays.
    pub open spec fn down(self, texts: Seq<Seq<char>>, rows: int) -> Cursor {
        if self.y() + 1 < texts.len() {
            self.row_down(rows).clamped(texts[self.y() + 1].len() as int)
        } else {
            self
        }
    }

    /// The horizontal part of a movement.
    pub open spec fn moved_x(self, dx: int, texts: Seq<Seq<char>>, width: int, rows: int) -> Cursor {
        if dx < 0 {
            self.left(texts, width)
        } else if dx > 0 {
            self.right(texts, width, rows)
        } else {
            self
        }
    }

    /// The vertical part of a movement.
    pub open spec fn moved_y(self, dy: int, texts: Seq<Seq<char>>, rows: int) -> Cursor {
        if dy > 0 {
            self.up(texts)
        } else if dy < 0 {
            self.down(texts, rows)
        } else {
            self
        }
    }

    /// A whole movement: the horizontal part first, then the vertical part
    /// from where that one ended.
    pub open spec fn moved(
        self,
        direction: Direction,
        texts: Seq<Seq<char>>,
        width: int,
        rows: int,
    ) -> Cursor {
        self.moved_x(direction.x as int, texts, width, rows).moved_y(direction.y as int, texts, rows)
    }

    /// A movement never takes the cursor out of the document: afterwards it
    /// still stands on a line, at one of its characters or right behind the
    /// last, whatever the size of the drawable region.
    pub proof fn moved_stays_within(
        self,
        direction: Direction,
        texts: Seq<Seq<char>>,
        width: int,
        rows: int,
    )
        requires
            machine_sized(texts),
            self.within(texts),
            width >= 0,
        ensures
            self.moved(direction, texts, width, rows).within(texts),
    {
        let mid = self.moved_x(direction.x as int, texts, width, rows);
        assert(mid.within(texts)) by {
            if self.x() == 0 && self.y() > 0 {
                assert(texts[self.y() - 1].len() <= usize::MAX);
            }
        }
        if mid.y() > 0 {
            assert(texts[mid.y() - 1].len() <= usize::MAX);
        }
        if mid.y() + 1 < texts.len() {
            assert(texts[mid.y() + 1].len() <= usize::MAX);
        }
    }

    /// A movement never takes the visible row past the rows that show
    /// text: a cursor that is drawn at most `rows` below the first text row
    /// is still drawn there afterwards.
    pub proof fn moved_keeps_row_in_view(
        self,
        direction: Direction,
        texts: Seq<Seq<char>>,
        width: int,
        rows: int,
    )
        requires
            self.visible.y <= rows,
        ensures
            self.moved(direction, texts, width, rows).visible.y <= rows,
    {
    }

    /// Whether the cursor stands inside the document.
    pub fn is_within(&self, doc: &Document) -> (ok: bool)
        requires
            doc.wf(),
        ensures
            ok == self.within(doc@),
    {
        proof {
            doc.always_has_a_line();
        }
        match (
            self.visible.x.checked_add(self.offset.x),
            self.visible.y.checked_add(self.offset.y),
        ) {
            (Some(x), Some(y)) => y < doc.line_count() && x <= doc.line_length(y),
            (None, Some(y)) => {
                assert(y < doc@.len() ==> doc@[y as int].len() <= usize::MAX);
                false
            },
            _ => false,
        }
    }

    /// The cursor at the origin of the document, unscrolled.
    pub fn new() -> (c: Cursor)
        ensures
            c == (Cursor { visible: Position { x: 0, y: 0 }, offset: Position { x: 0, y: 0 } }),
    {
        Cursor { visible: Position { x: 0, y: 0 }, offset: Position { x: 0, y: 0 } }
    }

    /// The position in the document: the visible part plus the scroll
    /// offset, per axis.
    pub fn logical(&self, doc: &Document) -> (p: Position)
        requires
            doc.wf(),
            self.within(doc@),
        ensures
            p.x == self.x(),
            p.y == self.y(),
    {
        proof {
            Self::fits(*self, doc);
        }
        Position { x: self.visible.x + self.offset.x, y: self.visible.y + self.offset.y }
    }

    /// Inside a document both coordinates are machine-sized.
    proof fn fits(c: Cursor, doc: &Document)
        requires
            doc.wf(),
            c.within(doc@),
        ensures
            c.y() < doc.lines.len() <= usize::MAX,
            c.x() <= doc.lines@[c.y()]@.len() <= usize::MAX,
            doc.lines@[c.y()].wf(),
    {
        doc.always_has_a_line();
        assert(doc@[c.y()] == doc.lines@[c.y()]@);
    }

    /// Moves one step toward the start of the line.
    pub fn move_left(&mut self, doc: &Document, width: usize)
        requires
            doc.wf(),
            old(self).within(doc@),
        ensures
            *final(self) == old(self).left(doc@, width as int),
            final(self).within(doc@),
    {
        proof {
            Self::fits(*self, doc);
        }
        let pos = self.logical(doc);
        if pos.x > 0 {
            if self.visible.x > 0 {
                self.visible.x -= 1;
            } else {
                self.offset.x -= 1;
            }
        } else if pos.y > 0 {
            if self.visible.y > 0 {
                self.visible.y -= 1;
            } else {
                self.offset.y -= 1;
            }
            let len = doc.line_length(pos.y - 1);
            self.visible.x = if len < width {
                len
            } else {
                width
            };
            self.offset.x = len - self.visible.x;
        }
    }

    /// Moves one step toward the end of the line.
    pub fn move_right(&mut self, doc: &Document, width: usize, rows: usize)
        requires
            doc.wf(),
            old(self).within(doc@),
        ensures
            *final(self) == old(self).right(doc@, width as int, rows as int),
            final(self).within(doc@),
    {
        proof {
            Self::fits(*self, doc);
        }
        let pos = self.logical(doc);
        let len = doc.line_length(pos.y);
        if pos.x < len {
            if width > self.visible.x + 1 {
                self.visible.x += 1;
            } else {
                self.offset.x += 1;
            }
        } else if pos.y + 1 < doc.line_count() {
            self.visible.x = 0;
            self.offset.x = 0;
            if rows > self.visible.y {
                self.visible.y += 1;
            } else {
                self.offset.y += 1;
            }
        }
    }

    /// Moves one step toward the first line.
    pub fn move_up(&mut self, doc: &Document)
        requires
            doc.wf(),
            old(self).within(doc@),
        ensures
            *final(self) == old(self).up(doc@),
            final(self).within(doc@),
    {
        proof {
            Self::fits(*self, doc);
        }
        let pos = self.logical(doc);
        if pos.y > 0 {
            if self.visible.y > 0 {
                self.visible.y -= 1;
            } else {
                self.offset.y -= 1;
            }
            let len = doc.line_length(pos.y - 1);
            if pos.x > len {
                self.visible.x = len;
                self.offset.x = 0;
            }
        }
    }

    /// Moves one step toward the last line.
    pub fn move_down(&mut self, doc: &Document, rows: usize)
        requires
            doc.wf(),
            old(self).within(doc@),
        ensures
            *final(self) == old(self).down(doc@, rows as int),
            final(self).within(doc@),
    {
        proof {
            Self::fits(*self, doc);
        }
        let pos = self.logical(doc);
        if pos.y + 1 < doc.line_count() {
            if rows > self.visible.y {
                self.visible.y += 1;
            } else {
                self.offset.y += 1;
            }
            let len = doc.line_length(pos.y + 1);
            if pos.x > len {
                self.visible.x = len;
                self.offset.x = 0;
            }
        }
    }

    /// Moves by `direction`: the horizontal part first, then the vertical
    /// part from where that one ended.
    pub fn move_by(&mut self, direction: Direction, doc: &Document, width: usize, rows: usize)
        requires
            doc.wf(),
            old(self).within(doc@),
        ensures
            *final(self) == old(self).moved(direction, doc@, width as int, rows as int),
            final(self).within(doc@),
    {
        if direction.x < 0 {
            self.move_left(doc, width);
        } else if direction.x > 0 {
            self.move_right(doc, width, rows);
        }
        if direction.y > 0 {
            self.move_up(doc);
        } else if direction.y < 0 {
            self.move_down(doc, rows);
        }
    }

    /// Puts the column at the end of the cursor's line.
    pub fn jump_to_line_end(&mut self, doc: &Document, width: usize)
        requires
            doc.wf(),
            old(self).within(doc@),
        ensures
            *final(self) == old(self).line_end(doc@, width as int),
            final(self).within(doc@),
            final(self).x() == doc@[old(self).y()].len(),
            final(self).y() == old(self).y(),
    {
        proof {
            Self::fits(*self, doc);
        }
        let pos = self.logical(doc);
        let len = doc.line_length(pos.y);
        if len > width {
            self.visible.x = width;
            self.offset.x = len - width;
        } else {
            self.visible.x = len - self.offset.x;
        }
    }

    /// The column at the end of the cursor's line. A line longer than the
    /// drawable `width` puts the visible part at the right edge; a shorter
    /// one keeps the scroll offset it has.
    pub open spec fn line_end(self, texts: Seq<Seq<char>>, width: int) -> Cursor {
        let len = texts[self.y()].len();
        if len > width {
            Cursor {
                visible: Position { x: width as usize, y: self.visible.y },
                offset: Position { x: (len - width) as usize, y: self.offset.y },
            }
        } else {
            Cursor {
                visible: Position { x: (len - self.offset.x) as usize, y: self.visible.y },
                offset: self.offset,
            }
        }
    }

    /// Puts the column at the start of the cursor's line, unscrolled.
    pub fn jump_to_line_start(&mut self)
        ensures
            *final(self) == old(self).at_line_start(),
            final(self).x() == 0,
            final(self).y() == old(self).y(),
    {
        self.visible.x = 0;
        self.offset.x = 0;
    }
}

} // verus!
