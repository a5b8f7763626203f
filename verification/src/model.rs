//! The mathematical model of the editor: a document is a sequence of lines,
//! each line a sequence of characters. The spec functions here say what each
//! editing operation does to that model; the executable methods in
//! [`crate::editor`] are proved against them.

use vstd::prelude::*;

verus! {

/// Splits a text into lines at every line feed, as the document loader does.
/// The empty text yields one empty line, and a trailing line feed yields a
/// trailing empty line.
pub open spec fn split_lines(s: Seq<char>) -> Seq<Seq<char>>
    decreases s.len(),
{
    if s.len() == 0 {
        seq![Seq::<char>::empty()]
    } else {
        let prefix = split_lines(s.drop_last());
        if s.last() == '\n' {
            prefix.push(Seq::<char>::empty())
        } else {
            prefix.update(prefix.len() - 1, prefix.last().push(s.last()))
        }
    }
}

/// Splitting a text always yields at least one line.
pub proof fn lemma_split_lines_nonempty(s: Seq<char>)
    ensures
        split_lines(s).len() >= 1,
    decreases s.len(),
{
    if s.len() != 0 {
        lemma_split_lines_nonempty(s.drop_last());
    }
}

/// The document after a character `c` is inserted at column `col` of line `row`.
pub open spec fn insert_at(doc: Seq<Seq<char>>, row: int, col: int, c: char) -> Seq<Seq<char>>
    recommends
        0 <= row < doc.len(),
        0 <= col <= doc[row].len(),
{
    doc.update(row, doc[row].insert(col, c))
}

/// The document and cursor after a backspace at `(row, col)`: with a character
/// to the left it is removed; at the start of a line the line is merged onto
/// the previous one; at the start of the document nothing happens.
pub open spec fn delete_before(doc: Seq<Seq<char>>, row: int, col: int) -> (Seq<Seq<char>>, int, int)
    recommends
        0 <= row < doc.len(),
        0 <= col <= doc[row].len(),
{
    if col > 0 {
        (doc.update(row, doc[row].remove(col - 1)), row, col - 1)
    } else if row > 0 {
        (doc.remove(row).update(row - 1, doc[row - 1] + doc[row]), row - 1, doc[row - 1].len() as int)
    } else {
        (doc, row, col)
    }
}

/// The document after line `row` is split at column `col`: the head stays at
/// `row`, the tail becomes a new line at `row + 1`.
pub open spec fn split_at(doc: Seq<Seq<char>>, row: int, col: int) -> Seq<Seq<char>>
    recommends
        0 <= row < doc.len(),
        0 <= col <= doc[row].len(),
{
    doc.update(row, doc[row].take(col)).insert(row + 1, doc[row].skip(col))
}

/// A column clamped to the length of the line it now stands on.
pub open spec fn clamp_to(col: int, len: int) -> int {
    if col > len {
        len
    } else {
        col
    }
}

/// The scroll offset after the viewport re-anchors to keep `row` visible:
/// unchanged when `row` is already within the window, otherwise moved the
/// least amount that brings it in.
pub open spec fn anchor_scroll(scroll: int, row: int, height: int) -> int {
    if row < scroll {
        row
    } else if row >= scroll + height {
        row - height + 1
    } else {
        scroll
    }
}

/// Screen row `i` of a frame: document line `scroll + i` truncated to `width`
/// characters when it exists, else the end-of-document marker line `"~"`.
pub open spec fn frame_line(doc: Seq<Seq<char>>, scroll: int, i: int, width: int) -> Seq<char> {
    if scroll + i < doc.len() {
        if doc[scroll + i].len() < width {
            doc[scroll + i]
        } else {
            doc[scroll + i].take(width)
        }
    } else {
        seq!['~']
    }
}

} // verus!
