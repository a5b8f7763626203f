//! Laws that relate the editing operations to one another, proved over the
//! model in [`crate::model`].

use vstd::prelude::*;

use crate::model::{anchor_scroll, delete_before, insert_at, split_at};

verus! {

/// Re-anchoring the viewport keeps the cursor row inside the window whenever
/// the window has at least one row: the scroll offset stays non-negative, at
/// most the cursor row, and within a window's height above it.
pub proof fn lemma_anchor_shows_row(scroll: int, row: int, height: int)
    requires
        0 <= scroll,
        0 <= row,
        height >= 1,
    ensures
        0 <= anchor_scroll(scroll, row, height),
        anchor_scroll(scroll, row, height) <= row,
        row < anchor_scroll(scroll, row, height) + height,
{
}

/// Inserting a character and then deleting before the position just past it
/// restores the original document and cursor: a backspace undoes a keypress.
pub proof fn lemma_insert_then_delete(doc: Seq<Seq<char>>, row: int, col: int, c: char)
    requires
        0 <= row < doc.len(),
        0 <= col <= doc[row].len(),
    ensures
        delete_before(insert_at(doc, row, col, c), row, col + 1) == (doc, row, col),
{
    let inserted = insert_at(doc, row, col, c);
    assert(inserted[row].remove(col) =~= doc[row]);
    assert(delete_before(inserted, row, col + 1).0 =~~= doc);
}

/// Splitting a line and then deleting before the start of the new line below
/// restores the original document and the column of the split: a backspace
/// undoes an enter.
pub proof fn lemma_split_then_merge(doc: Seq<Seq<char>>, row: int, col: int)
    requires
        0 <= row < doc.len(),
        0 <= col <= doc[row].len(),
    ensures
        delete_before(split_at(doc, row, col), row + 1, 0) == (doc, row, col),
{
    let sp = split_at(doc, row, col);
    assert(sp[row] =~= doc[row].take(col));
    assert(sp[row + 1] =~= doc[row].skip(col));
    assert(sp[row] + sp[row + 1] =~= doc[row]);
    assert(delete_before(sp, row + 1, 0).0 =~~= doc);
}

} // verus!
