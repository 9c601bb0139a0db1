//! The document: an ordered, never empty sequence of lines.

use vstd::prelude::*;
use vstd::std_specs::iter::IteratorSpec;
use crate::gap_buffer::{GapBuffer, GAP_BUFFER_DEFAULT_SIZE};
use crate::text::string_from_chars;

verus! {

/// The narrowest the line-number column ever gets.
pub const MIN_LINE_NUMBERS_WIDTH: usize = 4;

/// The least `k` with `n <= 10^k`: the base-ten logarithm of `n`, rounded
/// up. Zero for `n` of zero or one.
pub open spec fn ceil_log10(n: nat) -> nat
    decreases n,
{
    if n <= 1 {
        0
    } else {
        1 + ceil_log10(((n - 1) / 10 + 1) as nat)
    }
}

/// Ten to the power `k`.
pub open spec fn pow10(k: nat) -> nat
    decreases k,
{
    if k == 0 {
        1
    } else {
        10 * pow10((k - 1) as nat)
    }
}

/// The width of the line-number column for a document of `count` lines.
pub open spec fn number_width(count: nat) -> nat {
    if ceil_log10(count) > MIN_LINE_NUMBERS_WIDTH {
        ceil_log10(count)
    } else {
        MIN_LINE_NUMBERS_WIDTH as nat
    }
}

/// `ceil_log10(n)` is the least exponent whose power of ten reaches `n`.
pub proof fn ceil_log10_is_least(n: nat)
    requires
        n >= 1,
    ensures
        n <= pow10(ceil_log10(n)),
        ceil_log10(n) > 0 ==> pow10((ceil_log10(n) - 1) as nat) < n,
    decreases n,
{
    if n > 1 {
        let m = ((n - 1) / 10 + 1) as nat;
        ceil_log10_is_least(m);
        assert(n <= 10 * m);
        assert(10 * (m - 1) < n);
        if ceil_log10(m) > 0 {
            assert(pow10(ceil_log10(m)) == 10 * pow10((ceil_log10(m) - 1) as nat));
        } else {
            assert(m == 1);
            assert(pow10(0) == 1);
        }
    }
}

/// The width of the line-number column grows with the number of lines and
/// never shrinks as lines are added.
pub proof fn number_width_monotonic(a: nat, b: nat)
    requires
        a <= b,
    ensures
        number_width(a) <= number_width(b),
{
    ceil_log10_monotonic(a, b);
}

/// The rounded-up logarithm never decreases as its argument grows.
pub proof fn ceil_log10_monotonic(a: nat, b: nat)
    requires
        a <= b,
    ensures
        ceil_log10(a) <= ceil_log10(b),
    decreases b,
{
    if a > 1 {
        ceil_log10_monotonic(((a - 1) / 10 + 1) as nat, ((b - 1) / 10 + 1) as nat);
    }
}

/// The lines joined into one text, with a single line feed between each two
/// neighbours and none at the end.
pub open spec fn joined(lines: Seq<Seq<char>>) -> Seq<char>
    decreases lines.len(),
{
    if lines.len() == 0 {
        Seq::empty()
    } else if lines.len() == 1 {
        lines[0]
    } else {
        joined(lines.drop_last()) + seq!['\n'] + lines.last()
    }
}

/// A text cut into lines at its line feeds. A text of `n` line feeds gives
/// `n + 1` lines, the last of them empty where the text ends in a line
/// feed.
pub open spec fn split_lines(text: Seq<char>) -> Seq<Seq<char>>
    decreases text.len(),
{
    if text.len() == 0 {
        seq![Seq::empty()]
    } else {
        let before = split_lines(text.drop_last());
        if text.last() == '\n' {
            before.push(Seq::empty())
        } else {
            before.update(before.len() - 1, before.last().push(text.last()))
        }
    }
}

/// No line holds a line feed.
pub open spec fn free_of_line_feeds(lines: Seq<Seq<char>>) -> bool {
    forall|i: int, j: int|
        0 <= i < lines.len() && 0 <= j < lines[i].len() ==> (#[trigger] lines[i][j]) != '\n'
}

/// A text cut into lines has at least one line, none longer than the text,
/// and none with a line feed in it.
pub proof fn split_lines_shape(text: Seq<char>)
    ensures
        1 <= split_lines(text).len() <= text.len() + 1,
        forall|i: int|
            0 <= i < split_lines(text).len() ==> (#[trigger] split_lines(text)[i]).len()
                <= text.len(),
        free_of_line_feeds(split_lines(text)),
    decreases text.len(),
{
    if text.len() > 0 {
        split_lines_shape(text.drop_last());
    }
}

/// Cutting a text into lines and joining the lines gives the text again:
/// a file that is loaded and saved unchanged keeps every character.
pub proof fn joined_split_is_identity(text: Seq<char>)
    ensures
        joined(split_lines(text)) == text,
    decreases text.len(),
{
    if text.len() == 0 {
        assert(joined(split_lines(text)) =~= text);
    } else {
        let rest = text.drop_last();
        let before = split_lines(rest);
        joined_split_is_identity(rest);
        split_lines_shape(rest);
        if text.last() == '\n' {
            let lines = before.push(Seq::empty());
            assert(lines.drop_last() =~= before);
            assert(joined(lines) =~= joined(before) + seq!['\n'] + Seq::<char>::empty());
            assert(joined(lines) =~= text);
        } else {
            let lines = before.update(before.len() - 1, before.last().push(text.last()));
            if before.len() == 1 {
                assert(joined(before) == before[0]);
                assert(rest.push(text.last()) =~= text);
                assert(joined(lines) == lines[0]);
            } else {
                assert(lines.drop_last() =~= before.drop_last());
                assert(joined(lines) =~= joined(before.drop_last()) + seq!['\n']
                    + before.last().push(text.last()));
                assert(joined(before) == joined(before.drop_last()) + seq!['\n']
                    + before.last());
                assert(rest.push(text.last()) =~= text);
                assert(joined(lines) =~= joined(before).push(text.last()));
            }
        }
    }
}

/// Joining lines that hold no line feed and cutting the text at its line
/// feeds gives the lines again: what is saved is loaded as it was.
pub proof fn split_joined_is_identity(lines: Seq<Seq<char>>)
    requires
        lines.len() >= 1,
        free_of_line_feeds(lines),
    ensures
        split_lines(joined(lines)) == lines,
    decreases lines.len(),
{
    if lines.len() == 1 {
        split_line_without_feed(lines[0]);
        assert(seq![lines[0]] =~= lines);
    } else {
        let front = lines.drop_last();
        split_joined_is_identity(front);
        split_appended(joined(front) + seq!['\n'], lines.last());
        let cut = joined(front) + seq!['\n'];
        assert(cut.drop_last() =~= joined(front));
        assert(split_lines(cut) == front.push(Seq::empty()));
        assert(split_lines(cut + lines.last()) =~= lines);
    }
}

/// A text without a line feed is one line.
proof fn split_line_without_feed(line: Seq<char>)
    requires
        forall|j: int| 0 <= j < line.len() ==> line[j] != '\n',
    ensures
        split_lines(line) == seq![line],
    decreases line.len(),
{
    if line.len() == 0 {
        assert(line =~= Seq::<char>::empty());
    } else {
        split_line_without_feed(line.drop_last());
        assert(line.drop_last().push(line.last()) =~= line);
        assert(seq![line.drop_last()].update(0, line) =~= seq![line]);
    }
}

/// Characters other than line feeds, put behind a text, lengthen its last
/// line.
proof fn split_appended(text: Seq<char>, more: Seq<char>)
    requires
        forall|j: int| 0 <= j < more.len() ==> more[j] != '\n',
    ensures
        split_lines(text + more) == split_lines(text).update(
            split_lines(text).len() - 1,
            split_lines(text).last() + more,
        ),
    decreases more.len(),
{
    split_lines_shape(text);
    let lines = split_lines(text);
    if more.len() == 0 {
        assert(text + more =~= text);
        assert(lines.last() + more =~= lines.last());
        assert(lines.update(lines.len() - 1, lines.last()) =~= lines);
    } else {
        let front = more.drop_last();
        split_appended(text, front);
        assert((text + more).drop_last() =~= text + front);
        assert((lines.last() + front).push(more.last()) =~= lines.last() + more);
        assert(split_lines(text + more) =~= lines.update(lines.len() - 1, lines.last() + more));
    }
}

/// The texts are such as a document in memory can hold: the number of lines
/// and the length of each line are machine-sized.
pub open spec fn machine_sized(texts: Seq<Seq<char>>) -> bool {
    &&& texts.len() <= usize::MAX
    &&& forall|i: int| 0 <= i < texts.len() ==> (#[trigger] texts[i]).len() <= usize::MAX
}

/// Computes the width of the line-number column for `count` lines.
pub fn line_numbers_width_for(count: usize) -> (width: usize)
    ensures
        width == number_width(count as nat),
{
    let mut rest: usize = count;
    let mut digits: usize = 0;
    while rest > 1
        invariant
            digits + ceil_log10(rest as nat) == ceil_log10(count as nat),
            digits + rest <= count,
        decreases rest,
    {
        rest = (rest - 1) / 10 + 1;
        digits += 1;
    }
    if digits > MIN_LINE_NUMBERS_WIDTH {
        digits
    } else {
        MIN_LINE_NUMBERS_WIDTH
    }
}

/// The whole file as lines of text, together with the width that the
/// renderer gives to the line-number column.
#[derive(Debug)]
pub struct Document {
    pub lines: Vec<GapBuffer>,
    pub line_numbers_width: usize,
}

impl View for Document {
    type V = Seq<Seq<char>>;

    /// A document is viewed as the texts of its lines, first to last.
    open spec fn view(&self) -> Seq<Seq<char>> {
        Seq::new(self.lines@.len(), |i: int| self.lines@[i]@)
    }
}

impl Document {
    /// There is at least one line, every line is a well-formed gap buffer,
    /// and the cached column width matches the number of lines.
    pub open spec fn wf(&self) -> bool {
        &&& self.lines@.len() >= 1
        &&& forall|i: int| 0 <= i < self.lines@.len() ==> (#[trigger] self.lines@[i]).wf()
        &&& self.line_numbers_width == number_width(self.lines@.len())
    }

    /// A document is never without a line, and what it holds is
    /// machine-sized: the number of lines and the length of each.
    pub proof fn always_has_a_line(self)
        requires
            self.wf(),
        ensures
            self@.len() >= 1,
            machine_sized(self@),
    {
        assert(self.lines.len() == self.lines@.len());
        assert forall|i: int| 0 <= i < self@.len() implies (#[trigger] self@[i]).len()
            <= usize::MAX by {
            let line = self.lines@[i];
            assert(line.wf());
            assert(line.buffer.len() == line.buffer@.len());
            assert(line@.len() == line.gap_start + (line.buffer@.len() - line.gap_end));
        }
    }

    /// Whether the document is well formed.
    pub fn is_well_formed(&self) -> (ok: bool)
        ensures
            ok == self.wf(),
    {
        if self.lines.len() == 0 {
            return false;
        }
        let mut i: usize = 0;
        while i < self.lines.len()
            invariant
                i <= self.lines@.len(),
                forall|k: int| 0 <= k < i ==> (#[trigger] self.lines@[k]).wf(),
            decreases self.lines@.len() - i,
        {
            if !self.lines[i].is_well_formed() {
                return false;
            }
            i += 1;
        }
        self.line_numbers_width == line_numbers_width_for(self.lines.len())
    }

    /// A document of one empty line.
    pub fn new() -> (d: Document)
        ensures
            d.wf(),
            d@ == seq![Seq::<char>::empty()],
    {
        let mut lines: Vec<GapBuffer> = Vec::new();
        lines.push(GapBuffer::new(GAP_BUFFER_DEFAULT_SIZE));
        let d = Document { lines, line_numbers_width: line_numbers_width_for(1) };
        assert(d@ =~= seq![Seq::<char>::empty()]);
        d
    }

    /// A document holding `lines`, or one empty line where `lines` is empty.
    pub fn from_lines(lines: &Vec<String>) -> (d: Document)
        ensures
            d.wf(),
            lines@.len() == 0 ==> d@ == seq![Seq::<char>::empty()],
            lines@.len() > 0 ==> d@ == Seq::new(lines@.len(), |i: int| lines@[i]@),
    {
        if lines.len() == 0 {
            return Document::new();
        }
        let mut rows: Vec<GapBuffer> = Vec::new();
        let mut i: usize = 0;
        while i < lines.len()
            invariant
                i <= lines@.len(),
                rows@.len() == i,
                forall|k: int| 0 <= k < i ==> (#[trigger] rows@[k]).wf(),
                forall|k: int| 0 <= k < i ==> (#[trigger] rows@[k])@ == lines@[k]@,
            decreases lines@.len() - i,
        {
            let s: &str = lines[i].as_str();
            let n = s.unicode_len();
            let mut row = GapBuffer::new(
                if n > GAP_BUFFER_DEFAULT_SIZE {
                    n
                } else {
                    GAP_BUFFER_DEFAULT_SIZE
                },
            );
            row.push_str(s);
            assert(row@ =~= lines@[i as int]@);
            rows.push(row);
            i += 1;
        }
        let width = line_numbers_width_for(rows.len());
        let d = Document { lines: rows, line_numbers_width: width };
        assert(d@ =~= Seq::new(lines@.len(), |i: int| lines@[i]@));
        d
    }

    /// A document holding `text`, cut into lines at its line feeds.
    pub fn from_text(text: &str) -> (d: Document)
        ensures
            d.wf(),
            d@ == split_lines(text@),
    {
        let total = text.unicode_len();
        let mut rows: Vec<GapBuffer> = Vec::new();
        let mut row = GapBuffer::new(GAP_BUFFER_DEFAULT_SIZE);
        for c in it: text.chars()
            invariant
                it.seq() == text@,
                text@.len() == total,
                row.wf(),
                row.gap_start == row@.len(),
                row@.len() <= it.index(),
                forall|k: int| 0 <= k < rows@.len() ==> (#[trigger] rows@[k]).wf(),
                split_lines(text@.subrange(0, it.index() as int)) == Seq::new(
                    rows@.len(),
                    |k: int| rows@[k]@,
                ).push(row@),
        {
            let ghost seen = text@.subrange(0, it.index() as int);
            let ghost next = text@.subrange(0, it.index() + 1);
            let ghost done = Seq::new(rows@.len(), |k: int| rows@[k]@);
            let ghost line = row@;
            proof {
                split_lines_shape(seen);
                assert(next.drop_last() =~= seen);
                assert(next.last() == c);
                assert(split_lines(seen).last() == row@);
            }
            if c == '\n' {
                rows.push(row);
                row = GapBuffer::new(GAP_BUFFER_DEFAULT_SIZE);
                assert(Seq::new(rows@.len(), |k: int| rows@[k]@) =~= done.push(line));
            } else {
                row.push(c);
                assert(line.insert(line.len() as int, c) =~= line.push(c));
                assert(done.push(line).update(done.len() as int, line.push(c)) =~= done.push(
                    line.push(c),
                ));
            }
        }
        assert(text@.subrange(0, text@.len() as int) =~= text@);
        rows.push(row);
        let width = line_numbers_width_for(rows.len());
        let d = Document { lines: rows, line_numbers_width: width };
        assert(d@ =~= split_lines(text@));
        d
    }

    /// The whole document as one text: the lines in order, a line feed
    /// between each two neighbours.
    pub fn to_text(&self) -> (s: String)
        requires
            self.wf(),
        ensures
            s@ == joined(self@),
    {
        let mut out: Vec<char> = Vec::new();
        let mut y: usize = 0;
        while y < self.lines.len()
            invariant
                self.wf(),
                y <= self.lines@.len(),
                out@ == joined(self@.subrange(0, y as int)),
            decreases self.lines@.len() - y,
        {
            let ghost done = self@.subrange(0, y as int);
            let ghost next = self@.subrange(0, y + 1);
            if y > 0 {
                out.push('\n');
            }
            let line = &self.lines[y];
            let ghost start = out@;
            let mut i: usize = 0;
            while i < line.gap_start
                invariant
                    line.wf(),
                    i <= line.gap_start,
                    out@ == start + line.buffer@.subrange(0, i as int),
                decreases line.gap_start - i,
            {
                out.push(line.buffer[i]);
                i += 1;
                assert(out@ =~= start + line.buffer@.subrange(0, i as int));
            }
            let mut j: usize = line.gap_end;
            while j < line.buffer.len()
                invariant
                    line.wf(),
                    line.gap_end <= j <= line.buffer.len(),
                    out@ == start + line.prefix() + line.buffer@.subrange(
                        line.gap_end as int,
                        j as int,
                    ),
                decreases line.buffer.len() - j,
            {
                out.push(line.buffer[j]);
                j += 1;
                assert(out@ =~= start + line.prefix() + line.buffer@.subrange(
                    line.gap_end as int,
                    j as int,
                ));
            }
            proof {
                assert(next.drop_last() =~= done);
                assert(next.last() == line@);
                assert(out@ =~= start + line@);
                if y > 0 {
                    assert(start =~= joined(done) + seq!['\n']);
                } else {
                    assert(start =~= Seq::<char>::empty());
                    assert(out@ =~= line@);
                }
            }
            y += 1;
        }
        assert(self@.subrange(0, y as int) =~= self@);
        string_from_chars(&out)
    }

    /// Puts `content` into the document as line `y`; the lines from `y` on
    /// move one place down.
    pub fn insert_line(&mut self, y: usize, content: GapBuffer)
        requires
            old(self).wf(),
            content.wf(),
            y <= old(self)@.len(),
            old(self)@.len() < usize::MAX,
        ensures
            final(self).wf(),
            final(self)@ == old(self)@.insert(y as int, content@),
    {
        self.lines.insert(y, content);
        self.line_numbers_width = line_numbers_width_for(self.lines.len());
        assert(self@ =~= old(self)@.insert(y as int, content@));
    }

    /// Puts `content` behind the last line.
    pub fn push_line(&mut self, content: GapBuffer)
        requires
            old(self).wf(),
            content.wf(),
            old(self)@.len() < usize::MAX,
        ensures
            final(self).wf(),
            final(self)@ == old(self)@.push(content@),
    {
        self.lines.push(content);
        self.line_numbers_width = line_numbers_width_for(self.lines.len());
        assert(self@ =~= old(self)@.push(content@));
    }

    /// Takes line `y` out of the document and returns its text. The only
    /// line of a document is emptied instead, so that one line always stays.
    pub fn remove_line(&mut self, y: usize) -> (content: String)
        requires
            old(self).wf(),
            y < old(self)@.len(),
        ensures
            final(self).wf(),
            content@ == old(self)@[y as int],
            old(self)@.len() > 1 ==> final(self)@ == old(self)@.remove(
                y as int,
            ),
            old(self)@.len() == 1 ==> final(self)@ == seq![Seq::<char>::empty()],
    {
        if self.lines.len() == 1 {
            let content = self.lines[0].to_string();
            self.lines.set(0, GapBuffer::new(GAP_BUFFER_DEFAULT_SIZE));
            assert(self@ =~= seq![Seq::<char>::empty()]);
            return content;
        }
        let line = self.lines.remove(y);
        self.line_numbers_width = line_numbers_width_for(self.lines.len());
        assert(self@ =~= old(self)@.remove(y as int));
        line.to_string()
    }

    /// Cuts line `y` at column `at`: the line keeps what stood before `at`,
    /// and the rest becomes a new line right after it.
    pub fn split_line(&mut self, y: usize, at: usize)
        requires
            old(self).wf(),
            y < old(self)@.len(),
            at <= old(self)@[y as int].len(),
            old(self)@.len() < usize::MAX,
        ensures
            final(self).wf(),
            final(self)@ == old(self)@.update(
                y as int,
                old(self)@[y as int].subrange(0, at as int),
            ).insert(
                y + 1,
                old(self)@[y as int].subrange(
                    at as int,
                    old(self)@[y as int].len() as int,
                ),
            ),
    {
        let rest = self.lines[y].split_off(at);
        self.lines.insert(y + 1, rest);
        self.line_numbers_width = line_numbers_width_for(self.lines.len());
        assert(self@ =~= old(self)@.update(
            y as int,
            old(self)@[y as int].subrange(0, at as int),
        ).insert(
            y + 1,
            old(self)@[y as int].subrange(
                at as int,
                old(self)@[y as int].len() as int,
            ),
        ));
    }

    /// Appends the text of line `y` to the line before it and takes line `y`
    /// out of the document.
    pub fn join_line_into_previous(&mut self, y: usize)
        requires
            old(self).wf(),
            0 < y < old(self)@.len(),
            old(self)@[y - 1].len() + old(self)@[y as int].len() <= usize::MAX,
        ensures
            final(self).wf(),
            final(self)@ == old(self)@.update(
                y - 1,
                old(self)@[y - 1] + old(self)@[y as int],
            ).remove(y as int),
    {
        let lower = self.remove_line(y);
        let ghost removed = *self;
        assert(self.lines@.len() == self@.len());
        assert(self.lines@[y - 1].wf());
        assert(self.lines@[y - 1]@ == self@[y - 1]);
        self.lines[y - 1].push_str(lower.as_str());
        proof {
            let target = old(self)@.update(
                y - 1,
                old(self)@[y - 1] + old(self)@[y as int],
            ).remove(y as int);
            assert(removed@ == old(self)@.remove(y as int));
            assert(self@.len() == target.len());
            assert forall|i: int| 0 <= i < target.len() implies self@[i] == target[i] by {
                if i != y - 1 {
                    assert(self.lines@[i] == removed.lines@[i]);
                    assert(removed@[i] == removed.lines@[i]@);
                }
            }
        }
        assert(self@ =~= old(self)@.update(
            y - 1,
            old(self)@[y - 1] + old(self)@[y as int],
        ).remove(y as int));
    }

    /// Inserts `c` into line `y` so that it stands at column `x`. A column
    /// past the end of the line changes nothing.
    pub fn insert_char(&mut self, y: usize, x: usize, c: char)
        requires
            old(self).wf(),
            y < old(self)@.len(),
            old(self)@[y as int].len() < usize::MAX,
        ensures
            final(self).wf(),
            x <= old(self)@[y as int].len() ==> final(self)@ == old(
                self,
            )@.update(y as int, old(self)@[y as int].insert(x as int, c)),
            x > old(self)@[y as int].len() ==> final(self)@ == old(self)@,
    {
        self.lines[y].insert_at(x, c);
        proof {
            if x <= old(self)@[y as int].len() {
                assert(self@ =~= old(self)@.update(
                    y as int,
                    old(self)@[y as int].insert(x as int, c),
                ));
            } else {
                assert(self@ =~= old(self)@);
            }
        }
    }

    /// Removes the character at column `x` of line `y`. A column that names
    /// no character changes nothing.
    pub fn remove_char(&mut self, y: usize, x: usize)
        requires
            old(self).wf(),
            y < old(self)@.len(),
        ensures
            final(self).wf(),
            x < old(self)@[y as int].len() ==> final(self)@ == old(
                self,
            )@.update(y as int, old(self)@[y as int].remove(x as int)),
            x >= old(self)@[y as int].len() ==> final(self)@ == old(self)@,
    {
        self.lines[y].remove_at(x);
        proof {
            if x < old(self)@[y as int].len() {
                assert(self@ =~= old(self)@.update(
                    y as int,
                    old(self)@[y as int].remove(x as int),
                ));
            } else {
                assert(self@ =~= old(self)@);
            }
        }
    }

    /// The number of lines.
    pub fn line_count(&self) -> (n: usize)
        ensures
            n == self@.len(),
    {
        self.lines.len()
    }

    /// The number of characters in line `y`.
    pub fn line_length(&self, y: usize) -> (n: usize)
        requires
            self.wf(),
            y < self@.len(),
        ensures
            n == self@[y as int].len(),
    {
        self.lines[y].len()
    }

    /// The text of line `y`.
    pub fn line_text(&self, y: usize) -> (s: String)
        requires
            self.wf(),
            y < self@.len(),
        ensures
            s@ == self@[y as int],
    {
        self.lines[y].to_string()
    }
}

} // verus!
