//! A single line of text stored as a gap buffer.

use vstd::prelude::*;
use vstd::std_specs::iter::IteratorSpec;
use crate::text::string_from_chars;

verus! {

/// Capacity given to a line that is created without a size of its own.
pub const GAP_BUFFER_DEFAULT_SIZE: usize = 80;

/// A line of characters with one contiguous unused region, the gap.
///
/// The text of the line is what lies before the gap followed by what lies
/// after it. Edits happen at the gap, so typing in one place costs no more
/// than the distance the gap has to travel.
#[derive(Debug, Clone)]
pub struct GapBuffer {
    pub buffer: Vec<char>,
    pub gap_start: usize,
    pub gap_end: usize,
}

/// The capacity a full backing array of `capacity` cells grows to: twice as
/// much, one cell where there was none, and never past `usize::MAX`.
pub open spec fn grown(capacity: nat) -> nat {
    if capacity == 0 {
        1
    } else if capacity > usize::MAX / 2 {
        usize::MAX as nat
    } else {
        2 * capacity
    }
}

/// The capacity of a backing array of `capacity` cells that holds `len`
/// characters, after `more` characters were put in one by one: it grows
/// each time a character finds the array full.
pub open spec fn grown_for(capacity: nat, len: nat, more: nat) -> nat
    decreases more,
{
    if more == 0 {
        capacity
    } else if len == capacity {
        grown_for(grown(capacity), len + 1, (more - 1) as nat)
    } else {
        grown_for(capacity, len + 1, (more - 1) as nat)
    }
}

/// One point edit of a line.
#[derive(Debug, Clone, Copy)]
pub enum Edit {
    /// Insert a character so that it stands at `index`.
    Insert { index: usize, c: char },
    /// Remove the character at `index`.
    Remove { index: usize },
}

/// What one edit makes of a plain sequence of characters. An edit whose
/// index is out of range changes nothing.
pub open spec fn edited(text: Seq<char>, edit: Edit) -> Seq<char> {
    match edit {
        Edit::Insert { index, c } => if index <= text.len() {
            text.insert(index as int, c)
        } else {
            text
        },
        Edit::Remove { index } => if index < text.len() {
            text.remove(index as int)
        } else {
            text
        },
    }
}

/// What a run of edits, applied first to last, makes of a plain sequence of
/// characters.
pub open spec fn edited_all(text: Seq<char>, edits: Seq<Edit>) -> Seq<char>
    decreases edits.len(),
{
    if edits.len() == 0 {
        text
    } else {
        edited(edited_all(text, edits.drop_last()), edits.last())
    }
}

/// A run of edits lengthens a text by at most one character per edit.
pub proof fn edited_all_len_bound(text: Seq<char>, edits: Seq<Edit>)
    ensures
        edited_all(text, edits).len() <= text.len() + edits.len(),
    decreases edits.len(),
{
    if edits.len() > 0 {
        edited_all_len_bound(text, edits.drop_last());
    }
}

impl View for GapBuffer {
    type V = Seq<char>;

    /// A line is viewed as its text: the part before the gap, then the
    /// part after it.
    open spec fn view(&self) -> Seq<char> {
        self.prefix() + self.suffix()
    }
}

impl GapBuffer {
    /// The gap lies inside the backing array.
    pub open spec fn wf(&self) -> bool {
        0 <= self.gap_start <= self.gap_end <= self.buffer@.len()
    }

    /// The size of the backing array.
    pub open spec fn capacity(&self) -> nat {
        self.buffer@.len()
    }

    /// The part of the backing array before the gap.
    pub open spec fn prefix(&self) -> Seq<char> {
        self.buffer@.subrange(0, self.gap_start as int)
    }

    /// The part of the backing array after the gap.
    pub open spec fn suffix(&self) -> Seq<char> {
        self.buffer@.subrange(self.gap_end as int, self.buffer@.len() as int)
    }

    /// The backing array has the size it had in `before`, and every cell
    /// before `lo` and from `hi` on holds what it held there.
    pub open spec fn keeps_cells_outside(&self, before: GapBuffer, lo: int, hi: int) -> bool {
        &&& self.buffer@.len() == before.buffer@.len()
        &&& forall|i: int|
            0 <= i < self.buffer@.len() && (i < lo || hi <= i) ==> self.buffer@[i]
                == before.buffer@[i]
    }

    /// Since `before` only cells between the two positions of the gap can
    /// have been written: none before the lower of the two gap starts, none
    /// from the higher of the two gap ends on.
    pub open spec fn wrote_only_between_gaps(&self, before: GapBuffer) -> bool {
        self.keeps_cells_outside(
            before,
            if before.gap_start < self.gap_start {
                before.gap_start as int
            } else {
                self.gap_start as int
            },
            if before.gap_end > self.gap_end {
                before.gap_end as int
            } else {
                self.gap_end as int
            },
        )
    }

    /// Whether the gap lies inside the backing array.
    pub fn is_well_formed(&self) -> (ok: bool)
        ensures
            ok == self.wf(),
    {
        self.gap_start <= self.gap_end && self.gap_end <= self.buffer.len()
    }

    /// An empty line whose gap spans all `capacity` cells.
    pub fn new(capacity: usize) -> (b: GapBuffer)
        ensures
            b.wf(),
            b@ == Seq::<char>::empty(),
            b.capacity() == capacity,
            b.gap_start == 0,
            b.gap_end == capacity,
    {
        let b = GapBuffer { buffer: vec![' '; capacity], gap_start: 0, gap_end: capacity };
        assert(b@ =~= Seq::<char>::empty());
        b
    }

    /// The number of characters in the line.
    pub fn len(&self) -> (n: usize)
        requires
            self.wf(),
        ensures
            n == self@.len(),
            n == self.capacity() - (self.gap_end - self.gap_start),
    {
        self.buffer.len() - (self.gap_end - self.gap_start)
    }

    /// Writes `c` at the start of the gap, growing the backing array first
    /// when the gap is exhausted.
    pub fn push(&mut self, c: char)
        requires
            old(self).wf(),
            old(self)@.len() < usize::MAX,
        ensures
            final(self).wf(),
            final(self)@ == old(self)@.insert(old(self).gap_start as int, c),
            final(self).gap_start == old(self).gap_start + 1,
            final(self).suffix() == old(self).suffix(),
            final(self).capacity() == if old(self).gap_start == old(self).gap_end {
                grown(old(self).capacity())
            } else {
                old(self).capacity()
            },
            old(self).gap_start < old(self).gap_end ==> final(self).buffer@ == old(
                self,
            ).buffer@.update(old(self).gap_start as int, c) && final(self).gap_end == old(
                self,
            ).gap_end,
    {
        if self.gap_start == self.gap_end {
            self.resize();
        }
        let ghost before = *self;
        self.buffer.set(self.gap_start, c);
        self.gap_start += 1;
        assert(self.suffix() =~= before.suffix());
        assert(self@ =~= old(self)@.insert(old(self).gap_start as int, c));
    }

    /// Replaces the backing array by a larger one. Both parts of the text
    /// keep their place at the two ends; the gap between them widens.
    fn resize(&mut self)
        requires
            old(self).wf(),
            old(self).capacity() < usize::MAX,
        ensures
            final(self).wf(),
            final(self).prefix() == old(self).prefix(),
            final(self).suffix() == old(self).suffix(),
            final(self).gap_start == old(self).gap_start,
            final(self).capacity() == grown(old(self).capacity()),
            final(self).capacity() > old(self).capacity(),
    {
        let capacity = self.buffer.len();
        let new_capacity = if capacity == 0 {
            1
        } else if capacity > usize::MAX / 2 {
            usize::MAX
        } else {
            capacity * 2
        };
        let tail = capacity - self.gap_end;
        let new_gap_end = new_capacity - tail;
        let mut new_buffer = vec![' '; new_capacity];
        let mut i: usize = 0;
        while i < self.gap_start
            invariant
                self.wf(),
                i <= self.gap_start <= new_gap_end <= new_capacity,
                new_buffer@.len() == new_capacity,
                new_buffer@.subrange(0, i as int) == self.buffer@.subrange(0, i as int),
            decreases self.gap_start - i,
        {
            new_buffer.set(i, self.buffer[i]);
            i += 1;
            assert(new_buffer@.subrange(0, i as int) =~= self.buffer@.subrange(0, i as int));
        }
        let mut j: usize = 0;
        while j < tail
            invariant
                self.wf(),
                j <= tail,
                self.gap_end + tail == self.buffer.len(),
                self.gap_start <= new_gap_end,
                new_gap_end + tail == new_capacity,
                new_buffer@.len() == new_capacity,
                new_buffer@.subrange(0, self.gap_start as int) == self.prefix(),
                new_buffer@.subrange(new_gap_end as int, new_gap_end + j) == self.buffer@.subrange(
                    self.gap_end as int,
                    self.gap_end + j,
                ),
            decreases tail - j,
        {
            new_buffer.set(new_gap_end + j, self.buffer[self.gap_end + j]);
            j += 1;
            assert(new_buffer@.subrange(0, self.gap_start as int) =~= self.prefix());
            assert(new_buffer@.subrange(new_gap_end as int, new_gap_end + j)
                =~= self.buffer@.subrange(self.gap_end as int, self.gap_end + j));
        }
        self.gap_end = new_gap_end;
        self.buffer = new_buffer;
    }

    /// Drops the character just before the gap, if there is one.
    fn delete(&mut self)
        requires
            old(self).wf(),
        ensures
            final(self).wf(),
            final(self).buffer == old(self).buffer,
            final(self).gap_end == old(self).gap_end,
            old(self).gap_start > 0 ==> final(self).gap_start == old(self).gap_start - 1
                && final(self)@ == old(self)@.remove(old(self).gap_start - 1),
            old(self).gap_start == 0 ==> final(self).gap_start == 0,
    {
        if self.gap_start > 0 {
            self.gap_start -= 1;
            assert(self@ =~= old(self)@.remove(old(self).gap_start - 1));
        }
    }

    /// The text of the line as a string.
    pub fn to_string(&self) -> (s: String)
        requires
            self.wf(),
        ensures
            s@ == self@,
    {
        let mut result: Vec<char> = Vec::with_capacity(self.len());
        let mut i: usize = 0;
        while i < self.gap_start
            invariant
                self.wf(),
                i <= self.gap_start,
                result@ == self.buffer@.subrange(0, i as int),
            decreases self.gap_start - i,
        {
            result.push(self.buffer[i]);
            i += 1;
            assert(result@ =~= self.buffer@.subrange(0, i as int));
        }
        let mut j: usize = self.gap_end;
        while j < self.buffer.len()
            invariant
                self.wf(),
                self.gap_end <= j <= self.buffer.len(),
                result@ == self.prefix() + self.buffer@.subrange(self.gap_end as int, j as int),
            decreases self.buffer.len() - j,
        {
            result.push(self.buffer[j]);
            j += 1;
            assert(result@ =~= self.prefix() + self.buffer@.subrange(
                self.gap_end as int,
                j as int,
            ));
        }
        string_from_chars(&result)
    }

    /// Inserts `c` so that it becomes the character at `index`. An index
    /// past the end of the line leaves the line as it is.
    pub fn insert_at(&mut self, index: usize, c: char)
        requires
            old(self).wf(),
            old(self)@.len() < usize::MAX,
        ensures
            final(self).wf(),
            index <= old(self)@.len() ==> {
                &&& final(self)@ == old(self)@.insert(index as int, c)
                &&& final(self).gap_start == index + 1
                &&& final(self).prefix() == old(self)@.subrange(0, index as int).push(c)
                &&& final(self).suffix() == old(self)@.subrange(
                    index as int,
                    old(self)@.len() as int,
                )
                &&& final(self).capacity() == if old(self).gap_start == old(self).gap_end {
                    grown(old(self).capacity())
                } else {
                    old(self).capacity()
                }
                &&& old(self).gap_start < old(self).gap_end ==> final(self).keeps_cells_outside(
                    *old(self),
                    if old(self).gap_start < index {
                        old(self).gap_start as int
                    } else {
                        index as int
                    },
                    if old(self).gap_end > final(self).gap_end {
                        old(self).gap_end as int
                    } else {
                        final(self).gap_end as int
                    },
                )
            },
            index > old(self)@.len() ==> *final(self) == *old(self),
    {
        if index > self.len() {
            return ;
        }
        self.move_gap(index);
        let ghost moved = *self;
        self.push(c);
        proof {
            assert(moved.prefix() =~= old(self)@.subrange(0, index as int));
            assert(moved.suffix() =~= old(self)@.subrange(
                index as int,
                old(self)@.len() as int,
            ));
            assert(self.prefix() =~= self@.subrange(0, index + 1));
            assert(self.prefix() =~= moved.prefix().push(c));
        }
    }

    /// Applies `edits` first to last. The line's text then is what the same
    /// edits make of a plain sequence of characters.
    pub fn apply(&mut self, edits: &Vec<Edit>)
        requires
            old(self).wf(),
            old(self)@.len() + edits@.len() <= usize::MAX,
        ensures
            final(self).wf(),
            final(self)@ == edited_all(old(self)@, edits@),
    {
        let mut i: usize = 0;
        while i < edits.len()
            invariant
                self.wf(),
                i <= edits@.len(),
                self@ == edited_all(old(self)@, edits@.subrange(0, i as int)),
                old(self)@.len() + edits@.len() <= usize::MAX,
            decreases edits@.len() - i,
        {
            proof {
                edited_all_len_bound(old(self)@, edits@.subrange(0, i as int));
                assert(edits@.subrange(0, i + 1).drop_last() =~= edits@.subrange(0, i as int));
            }
            match edits[i] {
                Edit::Insert { index, c } => self.insert_at(index, c),
                Edit::Remove { index } => self.remove_at(index),
            }
            i += 1;
        }
        assert(edits@.subrange(0, i as int) =~= edits@);
    }

    /// Appends the characters of `s` to the end of the line, in order.
    pub fn push_str(&mut self, s: &str)
        requires
            old(self).wf(),
            old(self)@.len() + s@.len() <= usize::MAX,
        ensures
            final(self).wf(),
            final(self)@ == old(self)@ + s@,
            final(self).gap_start == final(self)@.len(),
            final(self).capacity() == grown_for(old(self).capacity(), old(self)@.len(), s@.len()),
    {
        let end = self.len();
        self.move_gap(end);
        for c in it: s.chars()
            invariant
                self.wf(),
                it.seq() == s@,
                self@ == old(self)@ + s@.subrange(0, it.index() as int),
                self.gap_start == self@.len(),
                old(self)@.len() + s@.len() <= usize::MAX,
                grown_for(self.capacity(), self@.len(), (s@.len() - it.index()) as nat)
                    == grown_for(old(self).capacity(), old(self)@.len(), s@.len()),
        {
            self.push(c);
            assert(self@ =~= old(self)@ + s@.subrange(0, it.index() + 1));
        }
        assert(s@.subrange(0, s@.len() as int) =~= s@);
    }

    /// Removes the character at `index`. An index that names no character
    /// leaves the line as it is.
    pub fn remove_at(&mut self, index: usize)
        requires
            old(self).wf(),
        ensures
            final(self).wf(),
            final(self).capacity() == old(self).capacity(),
            index < old(self)@.len() ==> {
                &&& final(self)@ == old(self)@.remove(index as int)
                &&& final(self).gap_start == index
                &&& final(self).prefix() == old(self)@.subrange(0, index as int)
                &&& final(self).suffix() == old(self)@.subrange(
                    index + 1,
                    old(self)@.len() as int,
                )
                &&& final(self).wrote_only_between_gaps(*old(self))
            },
            index >= old(self)@.len() ==> *final(self) == *old(self),
    {
        if index >= self.len() {
            return ;
        }
        self.move_gap(index + 1);
        let ghost moved = *self;
        self.delete();
        proof {
            assert(moved.suffix() =~= old(self)@.subrange(
                index + 1,
                old(self)@.len() as int,
            ));
            assert(self.prefix() =~= moved@.subrange(0, index as int));
        }
    }

    /// Cuts the line at `at`: the line keeps what stood before `at`, and the
    /// rest is returned as a line of its own.
    pub fn split_off(&mut self, at: usize) -> (rest: GapBuffer)
        requires
            old(self).wf(),
            at <= old(self)@.len(),
        ensures
            final(self).wf(),
            final(self)@ == old(self)@.subrange(0, at as int),
            final(self).gap_start == at,
            final(self).gap_end == final(self).capacity(),
            final(self).capacity() == old(self).capacity(),
            rest.wf(),
            rest@ == old(self)@.subrange(at as int, old(self)@.len() as int),
            rest.gap_start == rest@.len(),
            rest.gap_end == rest.capacity(),
            rest.capacity() == if rest@.len() > GAP_BUFFER_DEFAULT_SIZE {
                rest@.len()
            } else {
                GAP_BUFFER_DEFAULT_SIZE as nat
            },
    {
        self.move_gap(at);
        let content_len = self.buffer.len() - self.gap_end;
        let buffer_len = if content_len > GAP_BUFFER_DEFAULT_SIZE {
            content_len
        } else {
            GAP_BUFFER_DEFAULT_SIZE
        };
        let mut new_buffer = vec![' '; buffer_len];
        let mut i: usize = 0;
        while i < content_len
            invariant
                self.wf(),
                i <= content_len <= buffer_len,
                self.gap_end + content_len == self.buffer.len(),
                new_buffer@.len() == buffer_len,
                new_buffer@.subrange(0, i as int) == self.buffer@.subrange(
                    self.gap_end as int,
                    self.gap_end + i,
                ),
            decreases content_len - i,
        {
            new_buffer.set(i, self.buffer[self.gap_end + i]);
            i += 1;
            assert(new_buffer@.subrange(0, i as int) =~= self.buffer@.subrange(
                self.gap_end as int,
                self.gap_end + i,
            ));
        }
        self.gap_end = self.buffer.len();
        let rest = GapBuffer { buffer: new_buffer, gap_start: content_len, gap_end: buffer_len };
        assert(self@ =~= old(self)@.subrange(0, at as int));
        assert(rest@ =~= old(self)@.subrange(at as int, old(self)@.len() as int));
        rest
    }

    /// The length of the text is the capacity less the width of the gap.
    pub proof fn length_is_capacity_less_gap(self)
        requires
            self.wf(),
        ensures
            self@.len() == self.capacity() - (self.gap_end - self.gap_start),
    {
    }

    /// Cutting a text at `at` and putting the second part back behind the
    /// first gives the text again: what `split_off` leaves in the line,
    /// followed by what it returns, is the line as it was.
    pub proof fn split_then_append_restores(self, at: usize)
        requires
            self.wf(),
            at <= self@.len(),
        ensures
            self@.subrange(0, at as int) + self@.subrange(
                at as int,
                self@.len() as int,
            ) == self@,
    {
        assert(self@.subrange(0, at as int) + self@.subrange(
            at as int,
            self@.len() as int,
        ) =~= self@);
    }

    /// Moves the gap so that it starts at `index`, carrying one character
    /// across it per step. The text stays as it is, and so does every cell
    /// that does not lie between the old and the new place of the gap.
    fn move_gap(&mut self, index: usize)
        requires
            old(self).wf(),
            index <= old(self)@.len(),
        ensures
            final(self).wf(),
            final(self)@ == old(self)@,
            final(self).gap_start == index,
            final(self).capacity() == old(self).capacity(),
            final(self).gap_end - final(self).gap_start == old(self).gap_end - old(self).gap_start,
            final(self).wrote_only_between_gaps(*old(self)),
    {
        while index < self.gap_start
            invariant
                self.wf(),
                self@ == old(self)@,
                self.capacity() == old(self).capacity(),
                self.gap_end - self.gap_start == old(self).gap_end - old(self).gap_start,
                index <= self@.len(),
                self.gap_start <= old(self).gap_start,
                self.gap_start >= index || self.gap_start == old(self).gap_start,
                self.wrote_only_between_gaps(*old(self)),
            decreases self.gap_start,
        {
            let ghost before = *self;
            let c = self.buffer[self.gap_start - 1];
            self.buffer.set(self.gap_end - 1, c);
            self.gap_start -= 1;
            self.gap_end -= 1;
            assert(self@ =~= before@);
        }
        while index > self.gap_start
            invariant
                self.wf(),
                self@ == old(self)@,
                self.capacity() == old(self).capacity(),
                self.gap_end - self.gap_start == old(self).gap_end - old(self).gap_start,
                index <= self@.len(),
                self.gap_start <= index,
                self.gap_start >= old(self).gap_start || self.gap_start == index,
                self.wrote_only_between_gaps(*old(self)),
            decreases index - self.gap_start,
        {
            let ghost before = *self;
            assert(self@.len() == self.gap_start + (self.buffer@.len() - self.gap_end));
            let c = self.buffer[self.gap_end];
            self.buffer.set(self.gap_start, c);
            assert(self.gap_end < self.buffer.len());
            self.gap_start += 1;
            self.gap_end += 1;
            assert(self@ =~= before@);
        }
    }
}

} // verus!
