//! The editing session itself: document lines, cursor and viewport in one
//! struct, with every operation proved against the model in [`crate::model`].

use vstd::prelude::*;

use crate::model::{
    anchor_scroll, clamp_to, delete_before, frame_line, insert_at, split_at, split_lines,
};

verus! {

/// An abstract editing command, as the external event source delivers it.
/// `Exit` touches no state; it only asks the session to end.
#[derive(Clone, Copy)]
pub enum Command {
    MoveLeft,
    MoveRight,
    MoveUp,
    MoveDown,
    Home,
    End,
    InsertChar(char),
    Backspace,
    Enter,
    Resize(usize, usize),
    Exit,
}

/// One editing session: the document as a vector of lines, the cursor as
/// `(row, column)`, and the viewport as `(width, height, scroll)`.
pub struct SourceEditor {
    pub buffer: Vec<Vec<char>>,
    pub width: usize,
    pub height: usize,
    pub row: usize,
    pub column: usize,
    pub scroll: usize,
}

impl SourceEditor {
    /// The document as a mathematical sequence of lines.
    pub open spec fn doc(self) -> Seq<Seq<char>> {
        self.buffer@.map_values(|l: Vec<char>| l@)
    }

    /// The line the cursor stands on.
    pub open spec fn cur_line(self) -> Seq<char>
        recommends
            self.row < self.doc().len(),
    {
        self.doc()[self.row as int]
    }

    /// Well-formedness: the document has at least one line, the cursor row
    /// names an existing line, and the cursor column is at most that line's
    /// length (it may equal it: the end-of-line insertion point).
    pub open spec fn wf(self) -> bool {
        &&& self.doc().len() >= 1
        &&& (self.row as int) < self.doc().len()
        &&& (self.column as int) <= self.cur_line().len()
    }

    /// The viewport and the document are as they were; only the cursor moved.
    pub open spec fn only_cursor_changed(self, other: Self) -> bool {
        &&& self.buffer == other.buffer
        &&& self.width == other.width
        &&& self.height == other.height
        &&& self.scroll == other.scroll
    }

    /// Builds a session from the initial text, split at every line feed, with
    /// the cursor at the top left and the viewport unscrolled.
    pub fn new(buffer: String, width: usize, height: usize) -> (ed: Self)
        ensures
            ed.wf(),
            ed.doc() == split_lines(buffer@),
            ed.width == width,
            ed.height == height,
            ed.row == 0,
            ed.column == 0,
            ed.scroll == 0,
    {
        let text = buffer.as_str();
        let n = text.unicode_len();
        let mut lines: Vec<Vec<char>> = Vec::new();
        let mut cur: Vec<char> = Vec::new();
        let mut i: usize = 0;
        while i < n
            invariant
                i <= n,
                n == text@.len(),
                lines@.map_values(|l: Vec<char>| l@).push(cur@) =~~= split_lines(
                    text@.take(i as int),
                ),
            decreases n - i,
        {
            let c = text.get_char(i);
            proof {
                assert(text@.take(i + 1).drop_last() =~= text@.take(i as int));
                assert(text@.take(i + 1).last() == text@[i as int]);
            }
            if c == '\n' {
                lines.push(cur);
                cur = Vec::new();
            } else {
                cur.push(c);
            }
            proof {
                assert(lines@.map_values(|l: Vec<char>| l@).push(cur@) =~~= split_lines(
                    text@.take(i + 1),
                ));
            }
            i = i + 1;
        }
        lines.push(cur);
        proof {
            assert(text@.take(n as int) =~= text@);
        }
        let ed = SourceEditor { buffer: lines, width, height, row: 0, column: 0, scroll: 0 };
        proof {
            assert(ed.doc() =~~= split_lines(buffer@));
            crate::model::lemma_split_lines_nonempty(buffer@);
        }
        ed
    }

    /// Moves the cursor one column left, or does nothing at the start of the
    /// line: there is no wrap to the previous line.
    pub fn left(&mut self)
        requires
            old(self).wf(),
        ensures
            final(self).wf(),
            old(self).only_cursor_changed(*final(self)),
            final(self).row == old(self).row,
            final(self).column == if old(self).column > 0 {
                old(self).column - 1
            } else {
                0int
            },
    {
        if self.column != 0 {
            self.column = self.column - 1;
        }
    }

    /// Moves the cursor one column right, or does nothing at the end of the
    /// line: there is no wrap to the next line.
    pub fn right(&mut self)
        requires
            old(self).wf(),
        ensures
            final(self).wf(),
            old(self).only_cursor_changed(*final(self)),
            final(self).row == old(self).row,
            final(self).column == if (old(self).column as int) < old(self).cur_line().len() {
                old(self).column + 1
            } else {
                old(self).column as int
            },
    {
        if self.column < self.buffer[self.row].len() {
            self.column = self.column + 1;
        }
    }

    /// Puts the cursor at the start of its line.
    pub fn home(&mut self)
        requires
            old(self).wf(),
        ensures
            final(self).wf(),
            old(self).only_cursor_changed(*final(self)),
            final(self).row == old(self).row,
            final(self).column == 0,
    {
        self.column = 0;
    }

    /// Plans one frame: `height` display lines — a document line truncated to
    /// `width` characters where one exists, the `"~"` marker line below the
    /// end of the document — and the cursor's screen coordinates. Reads the
    /// session without changing it.
    pub fn render(&self) -> (r: (Vec<Vec<char>>, usize, usize))
        requires
            self.wf(),
        ensures
            r.0@.len() == self.height,
            forall|i: int|
                0 <= i < self.height ==> r.0@[i]@ == frame_line(
                    self.doc(),
                    self.scroll as int,
                    i,
                    self.width as int,
                ),
            r.1 == clamp_to(self.column as int, self.width as int),
            r.2 == if self.scroll <= self.row {
                self.row - self.scroll
            } else {
                0int
            },
    {
        let mut out: Vec<Vec<char>> = Vec::new();
        let mut idx: usize = 0;
        while idx < self.height
            invariant
                idx <= self.height,
                self.wf(),
                out@.len() == idx,
                forall|i: int|
                    0 <= i < idx ==> out@[i]@ == frame_line(
                        self.doc(),
                        self.scroll as int,
                        i,
                        self.width as int,
                    ),
            decreases self.height - idx,
        {
            if self.scroll < self.buffer.len() && idx < self.buffer.len() - self.scroll {
                let line = &self.buffer[self.scroll + idx];
                let limit = if line.len() < self.width {
                    line.len()
                } else {
                    self.width
                };
                let mut shown: Vec<char> = Vec::new();
                let mut j: usize = 0;
                while j < limit
                    invariant
                        j <= limit,
                        limit <= line@.len(),
                        shown@ =~= line@.take(j as int),
                    decreases limit - j,
                {
                    let c = line[j];
                    shown.push(c);
                    proof {
                        assert(shown@ =~= line@.take(j + 1));
                    }
                    j = j + 1;
                }
                proof {
                    if line@.len() < self.width {
                        assert(line@.take(limit as int) =~= line@);
                    }
                    assert(shown@ == frame_line(
                        self.doc(),
                        self.scroll as int,
                        idx as int,
                        self.width as int,
                    ));
                }
                out.push(shown);
            } else {
                let marker = vec!['~'];
                proof {
                    assert(marker@ =~= seq!['~']);
                }
                out.push(marker);
            }
            idx = idx + 1;
        }
        let col = if self.column < self.width {
            self.column
        } else {
            self.width
        };
        let cur_row = if self.scroll <= self.row {
            self.row - self.scroll
        } else {
            0
        };
        (out, col, cur_row)
    }

    /// Inserts the typed character at the cursor and moves the cursor one
    /// column right, past it.
    pub fn keypress(&mut self, c: char)
        requires
            old(self).wf(),
            old(self).cur_line().len() < usize::MAX,
        ensures
            final(self).wf(),
            final(self).doc() == insert_at(
                old(self).doc(),
                old(self).row as int,
                old(self).column as int,
                c,
            ),
            final(self).width == old(self).width,
            final(self).height == old(self).height,
            final(self).scroll == old(self).scroll,
            final(self).row == old(self).row,
            final(self).column == old(self).column + 1,
    {
        self.buffer[self.row].insert(self.column, c);
        self.column = self.column + 1;
        proof {
            assert(self.doc() =~~= insert_at(
                old(self).doc(),
                old(self).row as int,
                old(self).column as int,
                c,
            ));
        }
    }

    /// Removes the character before the cursor. At the start of a line the
    /// line is merged onto the end of the one above, the cursor lands at the
    /// join, and the viewport re-anchors to the cursor's new row; at the
    /// start of the document nothing happens.
    pub fn backspace(&mut self)
        requires
            old(self).wf(),
        ensures
            final(self).wf(),
            final(self).width == old(self).width,
            final(self).height == old(self).height,
            (final(self).doc(), final(self).row as int, final(self).column as int)
                == delete_before(old(self).doc(), old(self).row as int, old(self).column as int),
            final(self).scroll == if old(self).column == 0 && old(self).row > 0 {
                anchor_scroll(
                    old(self).scroll as int,
                    old(self).row - 1,
                    old(self).height as int,
                )
            } else {
                old(self).scroll as int
            },
            old(self).column == 0 && old(self).row > 0 && old(self).height >= 1
                ==> final(self).scroll <= final(self).row < final(self).scroll + final(self).height,
    {
        if self.column == 0 {
            if self.row == 0 {
                return ;
            }
            let merged = self.buffer.remove(self.row);
            self.row = self.row - 1;
            let len = self.buffer[self.row].len();
            let mut merged = merged;
            self.buffer[self.row].append(&mut merged);
            self.column = len;
            proof {
                assert(self.doc() =~~= delete_before(
                    old(self).doc(),
                    old(self).row as int,
                    old(self).column as int,
                ).0);
            }
            self.scroll_to_show_cursor();
            return ;
        }
        self.column = self.column - 1;
        self.buffer[self.row].remove(self.column);
        proof {
            assert(self.doc() =~~= delete_before(
                old(self).doc(),
                old(self).row as int,
                old(self).column as int,
            ).0);
        }
    }

    /// Splits the cursor's line at the cursor: the tail becomes a new line
    /// below, the cursor moves to its start, and the viewport re-anchors.
    pub fn enter(&mut self)
        requires
            old(self).wf(),
        ensures
            final(self).wf(),
            final(self).doc() == split_at(
                old(self).doc(),
                old(self).row as int,
                old(self).column as int,
            ),
            final(self).width == old(self).width,
            final(self).height == old(self).height,
            final(self).row == old(self).row + 1,
            final(self).column == 0,
            final(self).scroll == anchor_scroll(
                old(self).scroll as int,
                old(self).row as int + 1,
                old(self).height as int,
            ),
            old(self).height >= 1 ==> final(self).scroll <= final(self).row
                < final(self).scroll + final(self).height,
    {
        proof {
            assert(self.buffer@.len() == self.buffer.len());
        }
        let rest = self.buffer[self.row].split_off(self.column);
        self.row = self.row + 1;
        self.buffer.insert(self.row, rest);
        self.column = 0;
        proof {
            assert(self.doc() =~~= split_at(
                old(self).doc(),
                old(self).row as int,
                old(self).column as int,
            ));
        }
        self.scroll_to_show_cursor();
    }

    /// Re-anchors the viewport so the cursor row is visible: scrolls up to the
    /// cursor when it is above the window, down to it when it is below, and
    /// otherwise leaves the scroll offset alone.
    pub fn scroll_to_show_cursor(&mut self)
        requires
            old(self).wf(),
        ensures
            final(self).wf(),
            final(self).buffer == old(self).buffer,
            final(self).width == old(self).width,
            final(self).height == old(self).height,
            final(self).row == old(self).row,
            final(self).column == old(self).column,
            final(self).scroll == anchor_scroll(
                old(self).scroll as int,
                old(self).row as int,
                old(self).height as int,
            ),
            old(self).height >= 1 ==> final(self).scroll <= final(self).row
                < final(self).scroll + final(self).height,
    {
        proof {
            assert(self.buffer@.len() == self.buffer.len());
        }
        if self.row < self.scroll {
            self.scroll = self.row;
        } else if self.row - self.scroll >= self.height {
            self.scroll = self.row - self.height + 1;
        }
    }

    /// Clamps the cursor column to the length of the line the cursor now
    /// stands on; run after a vertical move onto a possibly shorter line.
    pub fn clamp_column(&mut self)
        requires
            old(self).doc().len() >= 1,
            (old(self).row as int) < old(self).doc().len(),
        ensures
            final(self).wf(),
            final(self).buffer == old(self).buffer,
            final(self).width == old(self).width,
            final(self).height == old(self).height,
            final(self).scroll == old(self).scroll,
            final(self).row == old(self).row,
            final(self).column == clamp_to(
                old(self).column as int,
                old(self).cur_line().len() as int,
            ),
    {
        let len = self.buffer[self.row].len();
        if self.column > len {
            self.column = len;
        }
    }

    /// Moves the cursor one row up, or leaves it on row zero; the column is
    /// clamped to the new line's length, and the viewport re-anchors. No
    /// memory of a desired column is kept: repeated vertical moves clamp from
    /// the current column each time.
    pub fn up(&mut self)
        requires
            old(self).wf(),
        ensures
            final(self).wf(),
            final(self).buffer == old(self).buffer,
            final(self).width == old(self).width,
            final(self).height == old(self).height,
            final(self).row == if old(self).row > 0 {
                old(self).row - 1
            } else {
                0int
            },
            final(self).column == clamp_to(
                old(self).column as int,
                old(self).doc()[final(self).row as int].len() as int,
            ),
            final(self).scroll == anchor_scroll(
                old(self).scroll as int,
                final(self).row as int,
                old(self).height as int,
            ),
            old(self).row == 0 ==> final(self).row == old(self).row && final(self).column == old(self).column,
    {
        if self.row != 0 {
            self.row = self.row - 1;
        }
        self.clamp_column();
        self.scroll_to_show_cursor();
    }

    /// Moves the cursor one row down, or leaves it on the last row; the column
    /// is clamped to the new line's length, and the viewport re-anchors. No
    /// memory of a desired column is kept: repeated vertical moves clamp from
    /// the current column each time.
    pub fn down(&mut self)
        requires
            old(self).wf(),
        ensures
            final(self).wf(),
            final(self).buffer == old(self).buffer,
            final(self).width == old(self).width,
            final(self).height == old(self).height,
            final(self).row == if (old(self).row as int) < old(self).doc().len() - 1 {
                old(self).row + 1
            } else {
                old(self).row as int
            },
            final(self).column == clamp_to(
                old(self).column as int,
                old(self).doc()[final(self).row as int].len() as int,
            ),
            final(self).scroll == anchor_scroll(
                old(self).scroll as int,
                final(self).row as int,
                old(self).height as int,
            ),
            old(self).row as int == old(self).doc().len() - 1 ==> final(self).row == old(self).row
                && final(self).column == old(self).column,
    {
        if self.row < self.buffer.len() - 1 {
            self.row = self.row + 1;
        }
        self.clamp_column();
        self.scroll_to_show_cursor();
    }

    /// Records a new viewport size and re-anchors the scroll offset so the
    /// cursor stays visible in the resized window.
    pub fn resize(&mut self, width: usize, height: usize)
        requires
            old(self).wf(),
        ensures
            final(self).wf(),
            final(self).buffer == old(self).buffer,
            final(self).row == old(self).row,
            final(self).column == old(self).column,
            final(self).width == width,
            final(self).height == height,
            final(self).scroll == anchor_scroll(
                old(self).scroll as int,
                old(self).row as int,
                height as int,
            ),
            height >= 1 ==> final(self).scroll <= final(self).row < final(self).scroll + height,
    {
        self.width = width;
        self.height = height;
        self.scroll_to_show_cursor();
    }

    /// Applies one command to completion and says whether the session should
    /// end. Each command acts exactly as the operation it names; `Exit`
    /// changes nothing and is the only command that asks to end.
    pub fn apply(&mut self, cmd: Command) -> (exit: bool)
        requires
            old(self).wf(),
            cmd is InsertChar ==> old(self).cur_line().len() < usize::MAX,
        ensures
            final(self).wf(),
            exit == (cmd is Exit),
            match cmd {
                Command::MoveLeft => old(self).only_cursor_changed(*final(self)) && final(self).row == old(self).row && final(self).column == if old(self).column > 0 {
                    old(self).column - 1
                } else {
                    0int
                },
                Command::MoveRight => old(self).only_cursor_changed(*final(self)) && final(self).row == old(self).row && final(self).column == if (old(self).column as int) < old(self).cur_line().len() {
                    old(self).column + 1
                } else {
                    old(self).column as int
                },
                Command::MoveUp => final(self).buffer == old(self).buffer && final(self).width
                    == old(self).width && final(self).height == old(self).height && final(self).row
                    == (if old(self).row > 0 {
                    old(self).row - 1
                } else {
                    0int
                }) && final(self).column == clamp_to(
                    old(self).column as int,
                    old(self).doc()[final(self).row as int].len() as int,
                ) && final(self).scroll == anchor_scroll(
                    old(self).scroll as int,
                    final(self).row as int,
                    old(self).height as int,
                ),
                Command::MoveDown => final(self).buffer == old(self).buffer && final(self).width
                    == old(self).width && final(self).height == old(self).height && final(self).row
                    == (if (old(self).row as int) < old(self).doc().len() - 1 {
                    old(self).row + 1
                } else {
                    old(self).row as int
                }) && final(self).column == clamp_to(
                    old(self).column as int,
                    old(self).doc()[final(self).row as int].len() as int,
                ) && final(self).scroll == anchor_scroll(
                    old(self).scroll as int,
                    final(self).row as int,
                    old(self).height as int,
                ),
                Command::Home => old(self).only_cursor_changed(*final(self)) && final(self).row
                    == old(self).row && final(self).column == 0,
                Command::End => old(self).only_cursor_changed(*final(self)) && final(self).row
                    == old(self).row && final(self).column == old(self).cur_line().len(),
                Command::InsertChar(c) => final(self).doc() == insert_at(
                    old(self).doc(),
                    old(self).row as int,
                    old(self).column as int,
                    c,
                ) && final(self).width == old(self).width && final(self).height == old(self).height
                    && final(self).scroll == old(self).scroll && final(self).row == old(self).row
                    && final(self).column == old(self).column + 1,
                Command::Backspace => final(self).width == old(self).width && final(self).height
                    == old(self).height && (final(self).doc(), final(self).row as int, final(self).column as int) == delete_before(
                    old(self).doc(),
                    old(self).row as int,
                    old(self).column as int,
                ) && final(self).scroll == (if old(self).column == 0 && old(self).row > 0 {
                    anchor_scroll(
                        old(self).scroll as int,
                        old(self).row - 1,
                        old(self).height as int,
                    )
                } else {
                    old(self).scroll as int
                }),
                Command::Enter => final(self).doc() == split_at(
                    old(self).doc(),
                    old(self).row as int,
                    old(self).column as int,
                ) && final(self).width == old(self).width && final(self).height == old(self).height
                    && final(self).row == old(self).row + 1 && final(self).column == 0 && final(self).scroll == anchor_scroll(
                    old(self).scroll as int,
                    old(self).row as int + 1,
                    old(self).height as int,
                ),
                Command::Resize(width, height) => final(self).buffer == old(self).buffer && final(self).row == old(self).row && final(self).column == old(self).column && final(self).width == width && final(self).height == height && final(self).scroll
                    == anchor_scroll(
                    old(self).scroll as int,
                    old(self).row as int,
                    height as int,
                ),
                Command::Exit => *final(self) == *old(self),
            },
    {
        match cmd {
            Command::MoveLeft => {
                self.left();
                false
            },
            Command::MoveRight => {
                self.right();
                false
            },
            Command::MoveUp => {
                self.up();
                false
            },
            Command::MoveDown => {
                self.down();
                false
            },
            Command::Home => {
                self.home();
                false
            },
            Command::End => {
                self.end();
                false
            },
            Command::InsertChar(c) => {
                self.keypress(c);
                false
            },
            Command::Backspace => {
                self.backspace();
                false
            },
            Command::Enter => {
                self.enter();
                false
            },
            Command::Resize(width, height) => {
                self.resize(width, height);
                false
            },
            Command::Exit => true,
        }
    }

    /// Puts the cursor at the end of its line.
    pub fn end(&mut self)
        requires
            old(self).wf(),
        ensures
            final(self).wf(),
            old(self).only_cursor_changed(*final(self)),
            final(self).row == old(self).row,
            final(self).column == old(self).cur_line().len(),
    {
        self.column = self.buffer[self.row].len();
    }
}

} // verus!
