//! A buffer's text at one moment, as rows of characters.

use vstd::prelude::*;
use vstd::string::*;

use crate::search::{byte_offset, utf8_len};
use crate::text::text_of;

verus! {

/// The rows of `text`: what stands between its line breaks.
pub open spec fn lines_of(text: Seq<char>) -> Seq<Seq<char>>
    decreases text.len(),
{
    if text.len() == 0 {
        seq![Seq::<char>::empty()]
    } else {
        let before = lines_of(text.drop_last());
        if text.last() == '\n' {
            before.push(Seq::<char>::empty())
        } else {
            before.update(before.len() - 1, before.last().push(text.last()))
        }
    }
}

/// `lines` with a line break between each two of them.
pub open spec fn joined(lines: Seq<Seq<char>>) -> Seq<char>
    decreases lines.len(),
{
    if lines.len() == 0 {
        Seq::empty()
    } else if lines.len() == 1 {
        lines[0]
    } else {
        joined(lines.drop_last()).push('\n') + lines.last()
    }
}

/// The number of line breaks in `text`.
pub open spec fn line_breaks(text: Seq<char>) -> nat
    decreases text.len(),
{
    if text.len() == 0 {
        0
    } else {
        line_breaks(text.drop_last()) + if text.last() == '\n' {
            1nat
        } else {
            0nat
        }
    }
}

/// Splitting a text into rows loses nothing: the rows joined again are the text, there is one more
/// row than there are line breaks, and no row holds a line break.
pub proof fn rows_are_the_text(text: Seq<char>)
    ensures
        joined(lines_of(text)) == text,
        lines_of(text).len() == line_breaks(text) + 1,
        forall|r: int, c: int|
            0 <= r < lines_of(text).len() && 0 <= c < lines_of(text)[r].len()
                ==> #[trigger] lines_of(text)[r][c] != '\n',
    decreases text.len(),
{
    if text.len() == 0 {
    } else {
        let before = lines_of(text.drop_last());
        rows_are_the_text(text.drop_last());
        let after = lines_of(text);
        if text.last() == '\n' {
            assert(after.drop_last() =~= before);
            assert(joined(after) =~= text);
        } else {
            if before.len() == 1 {
                assert(joined(after) =~= text);
            } else {
                let head = joined(before.drop_last()).push('\n');
                assert(after.drop_last() =~= before.drop_last());
                assert(joined(after) == head + before.last().push(text.last()));
                assert(head + before.last().push(text.last()) =~= (head + before.last()).push(
                    text.last(),
                ));
                assert(text =~= text.drop_last().push(text.last()));
            }
        }
    }
}

/// The rows of a text, and the bytes of each, can be numbered with 32 bits.
pub open spec fn fits_positions(text: Seq<char>) -> bool {
    &&& lines_of(text).len() <= u32::MAX
    &&& forall|r: int|
        0 <= r < lines_of(text).len() ==> utf8_len(#[trigger] lines_of(text)[r]) <= u32::MAX
}

/// A buffer's text, held by rows. Rows and columns are 32-bit numbers.
pub struct TextSnapshot {
    rows: Vec<Vec<char>>,
}

impl TextSnapshot {
    /// The rows of the text.
    pub closed spec fn lines(&self) -> Seq<Seq<char>> {
        self.rows@.map_values(|row: Vec<char>| row@)
    }

    /// The text.
    pub open spec fn text(&self) -> Seq<char> {
        joined(self.lines())
    }

    #[verifier::type_invariant]
    spec fn fits(&self) -> bool {
        &&& 1 <= self.rows@.len() <= u32::MAX
        &&& forall|r: int| 0 <= r < self.rows@.len() ==> utf8_len(#[trigger] self.rows@[r]@) <= u32::MAX
    }

    /// The snapshot of `text`, whose rows and columns fit into 32 bits.
    pub fn new(text: &str) -> (r: Self)
        requires
            fits_positions(text@),
        ensures
            r.lines() == lines_of(text@),
            r.text() == text@,
    {
        let mut rows: Vec<Vec<char>> = Vec::new();
        let mut row: Vec<char> = Vec::new();
        for c in it: text.chars()
            invariant
                it.seq() == text@,
                rows@.map_values(|row: Vec<char>| row@).push(row@) == lines_of(
                    text@.take(it.index() as int),
                ),
        {
            let ghost before = rows@.map_values(|row: Vec<char>| row@).push(row@);
            proof {
                assert(text@.take(it.index() + 1).drop_last() =~= text@.take(it.index() as int));
            }
            if c == '\n' {
                rows.push(row);
                row = Vec::new();
                assert(rows@.map_values(|row: Vec<char>| row@).push(row@) =~= before.push(
                    Seq::<char>::empty(),
                ));
            } else {
                row.push(c);
                assert(rows@.map_values(|row: Vec<char>| row@).push(row@) =~= before.update(
                    before.len() - 1,
                    before.last().push(c),
                ));
            }
        }
        let ghost before = rows@;
        let ghost last = row@;
        rows.push(row);
        proof {
            assert(text@.take(text@.len() as int) =~= text@);
            assert(rows@.map_values(|row: Vec<char>| row@) =~= before.map_values(
                |row: Vec<char>| row@,
            ).push(last));
            rows_are_the_text(text@);
            assert forall|r: int| 0 <= r < rows@.len() implies utf8_len(#[trigger] rows@[r]@)
                <= u32::MAX by {
                assert(rows@.map_values(|row: Vec<char>| row@)[r] == rows@[r]@);
            }
        }
        TextSnapshot { rows }
    }

    /// The index of the last row.
    pub fn max_row(&self) -> (r: u32)
        ensures
            r + 1 == self.lines().len(),
            r < u32::MAX,
    {
        proof {
            use_type_invariant(self);
        }
        (self.rows.len() - 1) as u32
    }

    /// The characters of a row.
    pub fn row(&self, row: u32) -> (r: &[char])
        requires
            row < self.lines().len(),
        ensures
            r@ == self.lines()[row as int],
            utf8_len(r@) <= u32::MAX,
    {
        proof {
            use_type_invariant(self);
        }
        self.rows[row as usize].as_slice()
    }

    /// The number of bytes in a row.
    pub fn line_len(&self, row: u32) -> (r: u32)
        requires
            row < self.lines().len(),
        ensures
            r == utf8_len(self.lines()[row as int]),
    {
        let chars = self.row(row);
        assert(chars@.take(chars@.len() as int) =~= chars@);
        byte_offset(chars, chars.len()) as u32
    }

    /// The text of the rows from `start` through `end`.
    pub fn rows_text(&self, start: u32, end: u32) -> (r: String)
        requires
            start <= end < self.lines().len(),
        ensures
            r@ == joined(self.lines().subrange(start as int, end + 1)),
    {
        let mut out = text_of(self.row(start));
        let mut row: u32 = start;
        assert(self.lines().subrange(start as int, start + 1) =~= seq![self.lines()[start as int]]);
        while row < end
            invariant
                start <= row <= end < self.lines().len(),
                out@ == joined(self.lines().subrange(start as int, row + 1)),
            decreases end - row,
        {
            row = row + 1;
            out.push('\n');
            out.append(text_of(self.row(row)).as_str());
            assert(self.lines().subrange(start as int, row + 1).drop_last() =~= self.lines().subrange(
                start as int,
                row as int,
            ));
        }
        out
    }
}

/// A text has at most one line break per byte.
proof fn breaks_fit(text: Seq<char>)
    ensures
        line_breaks(text) <= text.len() <= utf8_len(text),
    decreases text.len(),
{
    if text.len() > 0 {
        breaks_fit(text.drop_last());
    }
}

/// Every row takes at most as many bytes as the text.
proof fn rows_fit(text: Seq<char>)
    ensures
        forall|r: int| 0 <= r < lines_of(text).len() ==> utf8_len(#[trigger] lines_of(text)[r]) <= utf8_len(text),
        lines_of(text).len() >= 1,
    decreases text.len(),
{
    if text.len() > 0 {
        let before = lines_of(text.drop_last());
        rows_fit(text.drop_last());
        assert(before.last().push(text.last()).drop_last() =~= before.last());
        assert(utf8_len(before[before.len() - 1]) <= utf8_len(text.drop_last()));
    }
}

/// A text that takes fewer bytes than 32 bits can number has rows and columns that fit.
pub proof fn small_texts_fit(text: Seq<char>)
    requires
        utf8_len(text) < u32::MAX,
    ensures
        fits_positions(text),
{
    rows_are_the_text(text);
    breaks_fit(text);
    rows_fit(text);
}

} // verus!
