//! The composition buffer: the response text under edit and a cursor that is
//! an offset in characters, with character and word-level editing.

use vstd::prelude::*;
use crate::text::{chars_of, is_whitespace, string_of, white_space};

verus! {

/// The end of the run of characters that starts at `pos` and whose
/// whitespace-ness is `ws`: the first offset at or after `pos` that is the end
/// of the text or holds a character of the other kind.
pub open spec fn run_end(text: Seq<char>, pos: int, ws: bool) -> int
    decreases text.len() - pos,
{
    if 0 <= pos < text.len() && white_space(text[pos]) == ws {
        run_end(text, pos + 1, ws)
    } else {
        pos
    }
}

/// The start of the run of characters that ends just before `pos` and whose
/// whitespace-ness is `ws`.
pub open spec fn run_start(text: Seq<char>, pos: int, ws: bool) -> int
    decreases pos,
{
    if 0 < pos <= text.len() && white_space(text[pos - 1]) == ws {
        run_start(text, pos - 1, ws)
    } else {
        pos
    }
}

/// Where a forward word motion from `pos` lands: past the rest of the word
/// under `pos`, then past the whitespace after it.
pub open spec fn next_word_boundary(text: Seq<char>, pos: int) -> int {
    run_end(text, run_end(text, pos, false), true)
}

/// Where a backward word motion from `pos` lands: before the whitespace that
/// precedes `pos`, then at the start of the word before that.
pub open spec fn prev_word_boundary(text: Seq<char>, pos: int) -> int {
    run_start(text, run_start(text, pos, true), false)
}

/// Every character of `text` is whitespace.
pub open spec fn blank(text: Seq<char>) -> bool {
    forall|i: int| 0 <= i < text.len() ==> white_space(#[trigger] text[i])
}

/// A text of spaces, tabs and line breaks is blank, and a text that holds a
/// printable ASCII character other than the space is not.
pub proof fn lemma_blank_ascii(text: Seq<char>, i: int)
    ensures
        (forall|k: int|
            0 <= k < text.len() ==> (#[trigger] text[k]) == ' ' || text[k] == '\t' || text[k] == '\n' || text[k]
                == '\r') ==> blank(text),
        0 <= i < text.len() && 32 < (text[i] as u32) < 127 ==> !blank(text),
{
}

/// `run_end` is the least offset from `pos` on at which the run stops.
pub proof fn lemma_run_end(text: Seq<char>, pos: int, ws: bool)
    requires
        0 <= pos <= text.len(),
    ensures
        pos <= run_end(text, pos, ws) <= text.len(),
        forall|i: int| pos <= i < run_end(text, pos, ws) ==> white_space(#[trigger] text[i]) == ws,
        run_end(text, pos, ws) < text.len() ==> white_space(text[run_end(text, pos, ws)]) != ws,
    decreases text.len() - pos,
{
    if pos < text.len() && white_space(text[pos]) == ws {
        lemma_run_end(text, pos + 1, ws);
    }
}

/// `run_start` is the greatest offset up to `pos` at which the run begins.
pub proof fn lemma_run_start(text: Seq<char>, pos: int, ws: bool)
    requires
        0 <= pos <= text.len(),
    ensures
        0 <= run_start(text, pos, ws) <= pos,
        forall|i: int| run_start(text, pos, ws) <= i < pos ==> white_space(#[trigger] text[i]) == ws,
        run_start(text, pos, ws) > 0 ==> white_space(text[run_start(text, pos, ws) - 1]) != ws,
    decreases pos,
{
    if 0 < pos && white_space(text[pos - 1]) == ws {
        lemma_run_start(text, pos - 1, ws);
    }
}

/// Both word boundaries of a valid offset are valid offsets, the next one at
/// or after it and the previous one at or before it.
pub proof fn lemma_word_boundaries_in_range(text: Seq<char>, pos: int)
    requires
        0 <= pos <= text.len(),
    ensures
        pos <= next_word_boundary(text, pos) <= text.len(),
        0 <= prev_word_boundary(text, pos) <= pos,
{
    lemma_run_end(text, pos, false);
    lemma_run_end(text, run_end(text, pos, false), true);
    lemma_run_start(text, pos, true);
    lemma_run_start(text, run_start(text, pos, true), false);
}

/// `text` cut to the first `limit` characters where it has more.
pub open spec fn capped(text: Seq<char>, limit: Option<usize>) -> Seq<char> {
    match limit {
        Some(l) => if text.len() > l {
            text.take(l as int)
        } else {
            text
        },
        None => text,
    }
}

/// What a composition buffer is: its text, the cursor as an offset in
/// characters, and the platform's character limit, if it has one.
pub struct BufferView {
    pub text: Seq<char>,
    pub cursor: int,
    pub limit: Option<usize>,
}

impl BufferView {
    /// The cursor is an insertion point of the text, and the text is no
    /// longer than the limit.
    pub open spec fn wf(self) -> bool {
        0 <= self.cursor <= self.text.len() && self.within_limit()
    }

    /// An insertion is accepted: there is no limit, or the text is shorter
    /// than it.
    pub open spec fn has_room(self) -> bool {
        match self.limit {
            Some(l) => self.text.len() < l,
            None => true,
        }
    }

    /// The text is no longer than the limit.
    pub open spec fn within_limit(self) -> bool {
        match self.limit {
            Some(l) => self.text.len() <= l,
            None => true,
        }
    }

    /// The buffer with the same limit, other text and cursor.
    pub open spec fn with(self, text: Seq<char>, cursor: int) -> BufferView {
        BufferView { text, cursor, limit: self.limit }
    }

    /// The empty buffer with the given limit.
    pub open spec fn empty(limit: Option<usize>) -> BufferView {
        BufferView { text: Seq::empty(), cursor: 0, limit }
    }

    /// Insertion of `c` at the cursor, which then stands after it; no change
    /// where the limit leaves no room.
    pub open spec fn insert(self, c: char) -> BufferView {
        if self.has_room() {
            self.with(self.text.insert(self.cursor, c), self.cursor + 1)
        } else {
            self
        }
    }

    /// Removal of the character before the cursor; no change at the start.
    pub open spec fn backspace(self) -> BufferView {
        if self.cursor > 0 {
            self.with(self.text.remove(self.cursor - 1), self.cursor - 1)
        } else {
            self
        }
    }

    /// Removal of the character at the cursor; no change at the end.
    pub open spec fn delete(self) -> BufferView {
        if self.cursor < self.text.len() {
            self.with(self.text.remove(self.cursor), self.cursor)
        } else {
            self
        }
    }

    /// The cursor one character back, unless it is at the start.
    pub open spec fn left(self) -> BufferView {
        if self.cursor > 0 {
            self.with(self.text, self.cursor - 1)
        } else {
            self
        }
    }

    /// The cursor one character on, unless it is at the end.
    pub open spec fn right(self) -> BufferView {
        if self.cursor < self.text.len() {
            self.with(self.text, self.cursor + 1)
        } else {
            self
        }
    }

    /// The cursor at the start of the text.
    pub open spec fn home(self) -> BufferView {
        self.with(self.text, 0)
    }

    /// The cursor at the end of the text.
    pub open spec fn end(self) -> BufferView {
        self.with(self.text, self.text.len() as int)
    }

    /// The cursor at the previous word boundary.
    pub open spec fn word_left(self) -> BufferView {
        self.with(self.text, prev_word_boundary(self.text, self.cursor))
    }

    /// The cursor at the next word boundary.
    pub open spec fn word_right(self) -> BufferView {
        self.with(self.text, next_word_boundary(self.text, self.cursor))
    }

    /// Removal of the span between the previous word boundary and the cursor,
    /// which then stands at that boundary.
    pub open spec fn delete_prev_word(self) -> BufferView {
        let start = prev_word_boundary(self.text, self.cursor);
        self.with(
            self.text.subrange(0, start) + self.text.subrange(self.cursor, self.text.len() as int),
            start,
        )
    }

    /// Removal of the span between the cursor and the next word boundary.
    pub open spec fn delete_next_word(self) -> BufferView {
        let end = next_word_boundary(self.text, self.cursor);
        self.with(
            self.text.subrange(0, self.cursor) + self.text.subrange(end, self.text.len() as int),
            self.cursor,
        )
    }

    /// The buffer emptied, the cursor at 0.
    pub open spec fn cleared(self) -> BufferView {
        self.with(Seq::empty(), 0)
    }

    /// The buffer filled with `text`, cut to the limit where it is longer,
    /// the cursor at the end.
    pub open spec fn filled(self, text: Seq<char>) -> BufferView {
        self.with(capped(text, self.limit), capped(text, self.limit).len() as int)
    }

    /// The characters of `cs` inserted one after the other.
    pub open spec fn insert_all(self, cs: Seq<char>) -> BufferView
        decreases cs.len(),
    {
        if cs.len() == 0 {
            self
        } else {
            self.insert_all(cs.drop_last()).insert(cs.last())
        }
    }

    /// The text with `marker` put in at the cursor.
    pub open spec fn marked(self, marker: char) -> Seq<char> {
        self.text.insert(self.cursor, marker)
    }
}

/// Inserting a character and then deleting backwards restores the text and
/// the cursor, wherever the cursor stood, provided the insertion had room.
pub proof fn lemma_insert_then_backspace(b: BufferView, c: char)
    requires
        b.wf(),
        b.has_room(),
    ensures
        b.insert(c).backspace() == b,
{
    assert(b.text.insert(b.cursor, c).remove(b.cursor) =~= b.text);
}

/// Inserting a character, stepping back over it and deleting forwards
/// restores the text and the cursor, provided the insertion had room.
pub proof fn lemma_insert_then_delete(b: BufferView, c: char)
    requires
        b.wf(),
        b.has_room(),
    ensures
        b.insert(c).left().delete() == b,
{
    assert(b.text.insert(b.cursor, c).remove(b.cursor) =~= b.text);
}

/// A backward word motion from offset 0 stays at 0, and a forward word
/// motion from the end of the text stays at the end.
pub proof fn lemma_word_motion_at_extremities(b: BufferView)
    requires
        b.wf(),
    ensures
        b.cursor == 0 ==> b.word_left() == b,
        b.cursor == b.text.len() ==> b.word_right() == b,
        b.home().word_left() == b.home(),
        b.end().word_right() == b.end(),
{
}

/// An insertion keeps the buffer well formed, so that the text is never
/// longer than the limit; where the text has reached the limit it changes
/// nothing, and otherwise the text grows by the one character.
pub proof fn lemma_insert_respects_limit(b: BufferView, c: char)
    requires
        b.wf(),
    ensures
        b.insert(c).wf(),
        b.insert(c).within_limit(),
        !b.has_room() ==> b.insert(c) == b,
        b.has_room() ==> b.insert(c).text.len() == b.text.len() + 1,
{
}

/// No sequence of insertions makes the text of a buffer longer than the
/// limit.
pub proof fn lemma_insertions_respect_limit(b: BufferView, cs: Seq<char>)
    requires
        b.wf(),
    ensures
        b.insert_all(cs).wf(),
        b.insert_all(cs).within_limit(),
        b.insert_all(cs).limit == b.limit,
    decreases cs.len(),
{
    if cs.len() > 0 {
        lemma_insertions_respect_limit(b, cs.drop_last());
        lemma_insert_respects_limit(b.insert_all(cs.drop_last()), cs.last());
    }
}

/// Every operation on a well-formed buffer gives a well-formed buffer: the
/// cursor stays an insertion point and the text within the limit, whatever
/// is inserted, deleted or filled in.
pub proof fn lemma_operations_keep_well_formed(b: BufferView, c: char, text: Seq<char>)
    requires
        b.wf(),
    ensures
        b.insert(c).wf(),
        b.backspace().wf(),
        b.delete().wf(),
        b.left().wf(),
        b.right().wf(),
        b.home().wf(),
        b.end().wf(),
        b.word_left().wf(),
        b.word_right().wf(),
        b.delete_prev_word().wf(),
        b.delete_next_word().wf(),
        b.cleared().wf(),
        b.filled(text).wf(),
        BufferView::empty(b.limit).wf(),
{
    lemma_word_boundaries_in_range(b.text, b.cursor);
}

/// The text under edit together with its cursor and character limit.
#[derive(Debug, PartialEq, Eq)]
pub struct CompositionBuffer {
    chars: Vec<char>,
    cursor: usize,
    limit: Option<usize>,
}

impl View for CompositionBuffer {
    type V = BufferView;

    closed spec fn view(&self) -> BufferView {
        BufferView { text: self.chars@, cursor: self.cursor as int, limit: self.limit }
    }
}

impl CompositionBuffer {
    /// An empty buffer with the given character limit.
    pub fn new(limit: Option<usize>) -> (b: CompositionBuffer)
        ensures
            b@ == BufferView::empty(limit),
            b@.wf(),
    {
        CompositionBuffer { chars: Vec::new(), cursor: 0, limit }
    }

    /// The number of characters in the buffer.
    pub fn len(&self) -> (n: usize)
        ensures
            n == self@.text.len(),
    {
        self.chars.len()
    }

    /// The cursor offset, in characters.
    pub fn cursor(&self) -> (k: usize)
        ensures
            k == self@.cursor,
    {
        self.cursor
    }

    /// The character limit, if there is one.
    pub fn limit(&self) -> (l: Option<usize>)
        ensures
            l == self@.limit,
    {
        self.limit
    }

    /// The text as a string.
    pub fn text(&self) -> (s: String)
        ensures
            s@ == self@.text,
    {
        string_of(&self.chars)
    }

    /// Whether the text is empty or whitespace only.
    pub fn is_blank(&self) -> (r: bool)
        ensures
            r == blank(self@.text),
    {
        let mut i: usize = 0;
        while i < self.chars.len()
            invariant
                i <= self.chars.len(),
                forall|j: int| 0 <= j < i ==> white_space(#[trigger] self.chars@[j]),
            decreases self.chars.len() - i,
        {
            if !is_whitespace(self.chars[i]) {
                return false;
            }
            i += 1;
        }
        true
    }

    /// The text with `marker` shown at the cursor.
    pub fn format_text_with_cursor(&self, marker: char) -> (s: String)
        requires
            self@.wf(),
        ensures
            s@ == self@.marked(marker),
    {
        let mut shown = self.chars.clone();
        shown.insert(self.cursor, marker);
        string_of(&shown)
    }

    /// The offset of the next word boundary after the cursor.
    pub fn find_next_word_boundary(&self) -> (pos: usize)
        requires
            self@.wf(),
        ensures
            pos == next_word_boundary(self@.text, self@.cursor),
            self@.cursor <= pos <= self@.text.len(),
    {
        proof {
            lemma_word_boundaries_in_range(self.chars@, self.cursor as int);
        }
        let mid = self.scan_forward(self.cursor, false);
        self.scan_forward(mid, true)
    }

    /// The offset of the previous word boundary before the cursor.
    pub fn find_prev_word_boundary(&self) -> (pos: usize)
        requires
            self@.wf(),
        ensures
            pos == prev_word_boundary(self@.text, self@.cursor),
            pos <= self@.cursor,
    {
        proof {
            lemma_word_boundaries_in_range(self.chars@, self.cursor as int);
        }
        let mid = self.scan_backward(self.cursor, true);
        self.scan_backward(mid, false)
    }

    fn scan_forward(&self, from: usize, ws: bool) -> (pos: usize)
        requires
            from <= self.chars@.len(),
        ensures
            pos == run_end(self.chars@, from as int, ws),
            from <= pos <= self.chars@.len(),
    {
        let mut pos = from;
        while pos < self.chars.len() && is_whitespace(self.chars[pos]) == ws
            invariant
                from <= pos <= self.chars@.len(),
                run_end(self.chars@, pos as int, ws) == run_end(self.chars@, from as int, ws),
            decreases self.chars@.len() - pos,
        {
            pos += 1;
        }
        pos
    }

    fn scan_backward(&self, from: usize, ws: bool) -> (pos: usize)
        requires
            from <= self.chars@.len(),
        ensures
            pos == run_start(self.chars@, from as int, ws),
            pos <= from,
    {
        let mut pos = from;
        while pos > 0 && is_whitespace(self.chars[pos - 1]) == ws
            invariant
                pos <= from <= self.chars@.len(),
                run_start(self.chars@, pos as int, ws) == run_start(self.chars@, from as int, ws),
            decreases pos,
        {
            pos -= 1;
        }
        pos
    }

    /// Inserts `c` at the cursor and advances the cursor, unless the limit
    /// leaves no room.
    pub fn insert_char(&mut self, c: char)
        requires
            old(self)@.wf(),
        ensures
            final(self)@ == old(self)@.insert(c),
            final(self)@.wf(),
    {
        let room = match self.limit {
            Some(l) => self.chars.len() < l,
            None => true,
        };
        if room {
            self.chars.insert(self.cursor, c);
            let grown = self.chars.len();
            assert(self.cursor < grown);
            self.cursor += 1;
        }
    }

    /// Inserts a line break at the cursor, under the same limit.
    pub fn insert_newline(&mut self)
        requires
            old(self)@.wf(),
        ensures
            final(self)@ == old(self)@.insert('\n'),
            final(self)@.wf(),
    {
        self.insert_char('\n');
    }

    /// Deletes the character before the cursor.
    pub fn backspace(&mut self)
        requires
            old(self)@.wf(),
        ensures
            final(self)@ == old(self)@.backspace(),
            final(self)@.wf(),
    {
        if self.cursor > 0 {
            self.cursor -= 1;
            self.chars.remove(self.cursor);
        }
    }

    /// Deletes the character at the cursor.
    pub fn delete_forward(&mut self)
        requires
            old(self)@.wf(),
        ensures
            final(self)@ == old(self)@.delete(),
            final(self)@.wf(),
    {
        if self.cursor < self.chars.len() {
            self.chars.remove(self.cursor);
        }
    }

    /// Moves the cursor one character back.
    pub fn move_left(&mut self)
        requires
            old(self)@.wf(),
        ensures
            final(self)@ == old(self)@.left(),
            final(self)@.wf(),
    {
        if self.cursor > 0 {
            self.cursor -= 1;
        }
    }

    /// Moves the cursor one character on.
    pub fn move_right(&mut self)
        requires
            old(self)@.wf(),
        ensures
            final(self)@ == old(self)@.right(),
            final(self)@.wf(),
    {
        if self.cursor < self.chars.len() {
            self.cursor += 1;
        }
    }

    /// Moves the cursor to the start of the text.
    pub fn move_home(&mut self)
        requires
            old(self)@.wf(),
        ensures
            final(self)@ == old(self)@.home(),
            final(self)@.wf(),
    {
        self.cursor = 0;
    }

    /// Moves the cursor to the end of the text.
    pub fn move_end(&mut self)
        requires
            old(self)@.wf(),
        ensures
            final(self)@ == old(self)@.end(),
            final(self)@.wf(),
    {
        self.cursor = self.chars.len();
    }

    /// Moves the cursor to the previous word boundary.
    pub fn move_word_left(&mut self)
        requires
            old(self)@.wf(),
        ensures
            final(self)@ == old(self)@.word_left(),
            final(self)@.wf(),
    {
        self.cursor = self.find_prev_word_boundary();
    }

    /// Moves the cursor to the next word boundary.
    pub fn move_word_right(&mut self)
        requires
            old(self)@.wf(),
        ensures
            final(self)@ == old(self)@.word_right(),
            final(self)@.wf(),
    {
        self.cursor = self.find_next_word_boundary();
    }

    /// Deletes from the previous word boundary up to the cursor.
    pub fn delete_prev_word(&mut self)
        requires
            old(self)@.wf(),
        ensures
            final(self)@ == old(self)@.delete_prev_word(),
            final(self)@.wf(),
    {
        let start = self.find_prev_word_boundary();
        let end = self.cursor;
        self.cursor = start;
        self.remove_span(start, end);
    }

    /// Deletes from the cursor up to the next word boundary.
    pub fn delete_next_word(&mut self)
        requires
            old(self)@.wf(),
        ensures
            final(self)@ == old(self)@.delete_next_word(),
            final(self)@.wf(),
    {
        let end = self.find_next_word_boundary();
        self.remove_span(self.cursor, end);
    }

    /// Removes the characters at offsets `start..end`.
    fn remove_span(&mut self, start: usize, end: usize)
        requires
            start <= end <= old(self).chars@.len(),
            old(self).cursor <= start,
        ensures
            final(self).chars@ == old(self).chars@.subrange(0, start as int) + old(self).chars@.subrange(
                end as int,
                old(self).chars@.len() as int,
            ),
            final(self).cursor == old(self).cursor,
            final(self).limit == old(self).limit,
    {
        let mut k: usize = end;
        while k > start
            invariant
                start <= k <= end,
                self.cursor == old(self).cursor,
                self.cursor <= start,
                self.limit == old(self).limit,
                self.chars@ == old(self).chars@.subrange(0, k as int) + old(self).chars@.subrange(
                    end as int,
                    old(self).chars@.len() as int,
                ),
                end <= old(self).chars@.len(),
            decreases k,
        {
            k -= 1;
            self.chars.remove(k);
        }
    }

    /// Empties the buffer.
    pub fn clear(&mut self)
        ensures
            final(self)@ == old(self)@.cleared(),
            final(self)@.wf(),
    {
        self.cursor = 0;
        self.chars.clear();
    }

    /// Replaces the text by `text` and puts the cursor at its end.
    pub fn set_text(&mut self, text: &str)
        ensures
            final(self)@ == old(self)@.filled(text@),
            final(self)@.wf(),
    {
        self.cursor = 0;
        let mut chars = chars_of(text);
        match self.limit {
            Some(l) => {
                if chars.len() > l {
                    chars.truncate(l);
                }
            },
            None => {},
        }
        self.chars = chars;
        self.cursor = self.chars.len();
    }
}

} // verus!
