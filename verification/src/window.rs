//! The viewport: owns a document buffer, a cursor and scroll offsets, and
//! translates every editing and navigation operation into line-index
//! mutations plus cursor and scroll adjustments.  Each operation's effect is
//! specified as a pure step function on the observable `ViewState`.

use crate::buffer::Buffer;
use crate::cursor::Cursor;
use crate::line_index::{
    rope_insert_char, rope_len_chars, rope_line_text_len, rope_line_to_char, rope_remove_char,
};
use crate::text::{
    insert_at, lemma_insert_in_line, lemma_insert_newline, lemma_line_structure,
    lemma_nl_le_len, lemma_remove_in_line, lemma_remove_terminator, line_count, line_start,
    line_text_len, remove_at,
};
use vstd::prelude::*;

verus! {

/// The observable editing state of a window: the text, the cursor position
/// within the viewport, the first visible line, and the viewport height.
#[verifier::ext_equal]
pub ghost struct ViewState {
    pub text: Seq<char>,
    pub row: nat,
    pub col: nat,
    pub topline: nat,
    pub height: nat,
}

impl ViewState {
    /// The absolute line the cursor sits on.
    pub open spec fn cur_line(self) -> int {
        self.topline + self.row as int
    }

    /// Bounds that every operation preserves: at least one viewport row,
    /// the cursor row within the viewport, the cursor on a real line, and
    /// the column at most the line's text length (one past the last
    /// character).
    pub open spec fn wf(self) -> bool {
        &&& self.height >= 1
        &&& self.row < self.height
        &&& self.cur_line() < line_count(self.text)
        &&& self.col <= line_text_len(self.text, self.cur_line())
    }

    /// The column clamped to the current line's text length.
    pub open spec fn clamp_col(self) -> ViewState {
        ViewState {
            col: if self.col <= line_text_len(self.text, self.cur_line()) {
                self.col
            } else {
                line_text_len(self.text, self.cur_line()) as nat
            },
            ..self
        }
    }

    /// Moving up scrolls instead of moving at the top visible row, is a
    /// no-op on the very first line, and clamps the column to the new line.
    pub open spec fn up_step(self) -> ViewState {
        if self.row == 0 {
            if self.topline > 0 {
                ViewState { topline: (self.topline - 1) as nat, ..self }.clamp_col()
            } else {
                self
            }
        } else {
            ViewState { row: (self.row - 1) as nat, ..self }.clamp_col()
        }
    }

    /// Moving down is a no-op once the last document line is reached,
    /// scrolls at the bottom visible row, and clamps the column.
    pub open spec fn down_step(self) -> ViewState {
        if self.cur_line() + 1 == line_count(self.text) {
            self
        } else if self.row + 1 == self.height {
            ViewState { topline: self.topline + 1, ..self }.clamp_col()
        } else {
            ViewState { row: self.row + 1, ..self }.clamp_col()
        }
    }

    /// One column left, stopping at the first column.
    pub open spec fn left_step(self) -> ViewState {
        ViewState {
            col: if self.col > 0 {
                (self.col - 1) as nat
            } else {
                0
            },
            ..self
        }
    }

    /// One column right, stopping at the insertion point after the last
    /// character of the line.
    pub open spec fn right_step(self) -> ViewState {
        ViewState {
            col: if self.col + 1 <= line_text_len(self.text, self.cur_line()) {
                (self.col + 1) as nat
            } else {
                line_text_len(self.text, self.cur_line()) as nat
            },
            ..self
        }
    }

    /// Absolute placement: the row clamped into the viewport and onto a
    /// real line, then the column clamped to that line.
    pub open spec fn move_to_step(self, row: nat, col: nat) -> ViewState {
        let r1 = if row < self.height {
            row
        } else {
            (self.height - 1) as nat
        };
        let r2 = if self.topline + r1 < line_count(self.text) {
            r1
        } else {
            (line_count(self.text) - 1 - self.topline) as nat
        };
        ViewState { row: r2, col, ..self }.clamp_col()
    }

    /// Typing a character inserts it at the cursor's effective position.
    /// A newline splits the current line and moves the cursor to the start
    /// of the new line, scrolling when it was on the bottom visible row;
    /// any other character moves the cursor one column right.
    pub open spec fn type_step(self, c: char) -> ViewState {
        let n = self.cur_line();
        let k = if self.col <= line_text_len(self.text, n) {
            self.col as int
        } else {
            line_text_len(self.text, n)
        };
        let t = insert_at(self.text, line_start(self.text, n) + k, c);
        if c == '\n' {
            if self.row + 1 == self.height {
                ViewState { text: t, topline: self.topline + 1, col: 0, ..self }
            } else {
                ViewState { text: t, row: self.row + 1, col: 0, ..self }
            }
        } else {
            ViewState { text: t, col: (k + 1) as nat, ..self }
        }
    }

    /// Backspace removes the character before the cursor: mid-line it
    /// deletes within the line and moves left; at column zero of a later
    /// line it removes the previous line's terminator, joining the two
    /// lines and placing the cursor at the join point; at the very start
    /// of the document it does nothing.
    pub open spec fn back_step(self) -> ViewState {
        let n = self.cur_line();
        if self.col > 0 {
            ViewState {
                text: remove_at(self.text, line_start(self.text, n) + self.col - 1),
                col: (self.col - 1) as nat,
                ..self
            }
        } else if n > 0 {
            let t = remove_at(self.text, line_start(self.text, n) - 1);
            let join = line_text_len(self.text, n - 1) as nat;
            if self.row == 0 {
                ViewState { text: t, topline: (self.topline - 1) as nat, col: join, ..self }
            } else {
                ViewState { text: t, row: (self.row - 1) as nat, col: join, ..self }
            }
        } else {
            self
        }
    }
}

pub struct Window {
    pub buffer: Buffer,
    pub cursor: Cursor,
    pub topline: usize,
    pub leftcol: usize,
    pub width: usize,
    pub height: usize,
}

impl Window {
    /// The observable editing state.
    pub open spec fn view(self) -> ViewState {
        ViewState {
            text: self.buffer.text(),
            row: self.cursor.row as nat,
            col: self.cursor.col as nat,
            topline: self.topline as nat,
            height: self.height as nat,
        }
    }

    pub open spec fn wf(self) -> bool {
        &&& self.buffer.wf()
        &&& self.view().wf()
    }

    /// What movement and editing operations leave alone.
    pub open spec fn same_frame(self, other: Window) -> bool {
        &&& self.leftcol == other.leftcol
        &&& self.width == other.width
        &&& self.height == other.height
        &&& self.buffer.id == other.buffer.id
        &&& self.buffer.name == other.buffer.name
        &&& self.buffer.file_path == other.buffer.file_path
        &&& self.buffer.line_termination == other.buffer.line_termination
    }

    /// A window over `buffer`, scrolled to the top left with the cursor at
    /// the origin.
    pub fn new(buffer: Buffer, width: usize, height: usize) -> (w: Window)
        requires
            buffer.wf(),
            height >= 1,
        ensures
            w.wf(),
            w.buffer == buffer,
            w.cursor.row == 0,
            w.cursor.col == 0,
            w.topline == 0,
            w.leftcol == 0,
            w.width == width,
            w.height == height,
    {
        proof {
            lemma_line_structure(buffer.text(), 0);
        }
        Window {
            buffer,
            cursor: Cursor { col: 0, row: 0 },
            topline: 0,
            leftcol: 0,
            width,
            height,
        }
    }

    /// Clamps the cursor column to the current line's text length.
    fn fix_col(&mut self)
        requires
            old(self).buffer.wf(),
            old(self).view().cur_line() < line_count(old(self).view().text),
        ensures
            final(self).view() == old(self).view().clamp_col(),
            final(self).buffer == old(self).buffer,
            final(self).same_frame(*old(self)),
    {
        let linenr = self.cursor.row + self.topline;
        let linelen = rope_line_text_len(&self.buffer.content, linenr);
        if self.cursor.col >= linelen {
            self.cursor.col = linelen;
        }
        proof {
            assert(self.view() =~= old(self).view().clamp_col());
        }
    }

    pub fn cursor_up(&mut self)
        requires
            old(self).wf(),
        ensures
            final(self).wf(),
            final(self).view() == old(self).view().up_step(),
            final(self).same_frame(*old(self)),
            final(self).buffer.edited == old(self).buffer.edited,
    {
        if self.cursor.row == 0 {
            if self.topline > 0 {
                self.topline -= 1;
                self.fix_col();
            }
        } else {
            self.cursor.move_up();
            self.fix_col();
        }
        proof {
            lemma_line_structure(old(self).view().text, self.view().cur_line());
            assert(self.view() =~= old(self).view().up_step());
        }
    }

    pub fn cursor_down(&mut self)
        requires
            old(self).wf(),
        ensures
            final(self).wf(),
            final(self).view() == old(self).view().down_step(),
            final(self).same_frame(*old(self)),
            final(self).buffer.edited == old(self).buffer.edited,
    {
        if self.cursor.row + self.topline + 1 != self.buffer.lines {
            if self.cursor.row + 1 == self.height {
                self.topline += 1;
                self.fix_col();
            } else {
                self.cursor.move_down(self.height);
                self.fix_col();
            }
        }
        proof {
            lemma_line_structure(old(self).view().text, self.view().cur_line());
            assert(self.view() =~= old(self).view().down_step());
        }
    }

    pub fn cursor_left(&mut self)
        requires
            old(self).wf(),
        ensures
            final(self).wf(),
            final(self).view() == old(self).view().left_step(),
            final(self).same_frame(*old(self)),
            final(self).buffer.edited == old(self).buffer.edited,
    {
        self.cursor.move_left();
        proof {
            assert(self.view() =~= old(self).view().left_step());
        }
    }

    pub fn cursor_right(&mut self)
        requires
            old(self).wf(),
        ensures
            final(self).wf(),
            final(self).view() == old(self).view().right_step(),
            final(self).same_frame(*old(self)),
            final(self).buffer.edited == old(self).buffer.edited,
    {
        let linenr = self.cursor.row + self.topline;
        let linelen = rope_line_text_len(&self.buffer.content, linenr);
        self.cursor.move_right(linelen);
        proof {
            assert(self.view() =~= old(self).view().right_step());
        }
    }

    /// Absolute cursor placement; the requested position is clamped onto
    /// the viewport, the document, and the target line.
    pub fn cursor_move_to(&mut self, row: usize, col: usize)
        requires
            old(self).wf(),
        ensures
            final(self).wf(),
            final(self).view() == old(self).view().move_to_step(row as nat, col as nat),
            final(self).same_frame(*old(self)),
            final(self).buffer.edited == old(self).buffer.edited,
    {
        let mut r = row;
        if r >= self.height {
            r = self.height - 1;
        }
        let max_abs = self.buffer.lines - 1;
        if r > max_abs - self.topline {
            r = max_abs - self.topline;
        }
        self.cursor.move_to(r, col);
        self.fix_col();
        proof {
            lemma_line_structure(old(self).view().text, self.view().cur_line());
            assert(self.view() =~= old(self).view().move_to_step(row as nat, col as nat));
        }
    }

    pub fn size(&self) -> (s: (usize, usize))
        ensures
            s.0 == self.width,
            s.1 == self.height,
    {
        (self.width, self.height)
    }

    /// Inserts one character at the cursor's effective position, keeps the
    /// buffer's line count in step, marks the buffer edited, and moves the
    /// cursor as `type_step` describes.
    pub fn type_char(&mut self, ch: char)
        requires
            old(self).wf(),
            old(self).view().text.len() + 2 <= usize::MAX,
        ensures
            final(self).wf(),
            final(self).view() == old(self).view().type_step(ch),
            final(self).same_frame(*old(self)),
            final(self).buffer.edited,
    {
        let ghost s = self.view().text;
        let ghost n = self.view().cur_line();
        let newline = ch == '\n';
        let linenr = self.cursor.row + self.topline;
        let linelen = rope_line_text_len(&self.buffer.content, linenr);
        let start = rope_line_to_char(&self.buffer.content, linenr);
        let eff = if self.cursor.col < linelen {
            self.cursor.col
        } else {
            linelen
        };
        proof {
            lemma_nl_le_len(s);
            if newline {
                lemma_insert_newline(s, n, eff as int);
            } else {
                lemma_insert_in_line(s, n, eff as int, ch);
            }
        }
        let idx = start + eff;
        rope_insert_char(&mut self.buffer.content, idx, ch);
        if newline {
            self.buffer.lines += 1;
        }
        self.buffer.edited = true;
        if newline {
            self.cursor_down();
            self.cursor.col = 0;
        } else {
            self.cursor_right();
        }
        proof {
            assert(self.view() =~= old(self).view().type_step(ch));
        }
    }

    /// Deletes the character before the cursor, joining lines when the
    /// cursor is at column zero, as `back_step` describes; a no-op at the
    /// start of the document.  Marks the buffer edited exactly when a
    /// character was removed.
    pub fn backspace(&mut self)
        requires
            old(self).wf(),
        ensures
            final(self).wf(),
            final(self).view() == old(self).view().back_step(),
            final(self).same_frame(*old(self)),
            old(self).view().col > 0 || old(self).view().cur_line() > 0
                ==> final(self).buffer.edited,
            old(self).view().col == 0 && old(self).view().cur_line() == 0
                ==> final(self).buffer.edited == old(self).buffer.edited,
    {
        let ghost s = self.view().text;
        let ghost n = self.view().cur_line();
        let _chars = rope_len_chars(&self.buffer.content);
        let linenr = self.cursor.row + self.topline;
        if self.cursor.col > 0 {
            let start = rope_line_to_char(&self.buffer.content, linenr);
            proof {
                lemma_remove_in_line(s, n, self.cursor.col - 1);
            }
            let idx = start + self.cursor.col - 1;
            rope_remove_char(&mut self.buffer.content, idx);
            self.buffer.edited = true;
            self.cursor.move_left();
        } else if linenr > 0 {
            let prevlen = rope_line_text_len(&self.buffer.content, linenr - 1);
            let start = rope_line_to_char(&self.buffer.content, linenr);
            proof {
                lemma_remove_terminator(s, n - 1);
            }
            rope_remove_char(&mut self.buffer.content, start - 1);
            self.buffer.lines -= 1;
            self.buffer.edited = true;
            self.cursor.col = prevlen;
            if self.cursor.row == 0 {
                self.topline -= 1;
            } else {
                self.cursor.move_up();
            }
        }
        proof {
            assert(self.view() =~= old(self).view().back_step());
        }
    }

    /// The visible slice of the document: first visible line, one past the
    /// last visible line, first visible column, one past the last visible
    /// column, and how many filler rows pad the space below the document's
    /// end.
    pub fn visible_range(&self) -> (r: (usize, usize, usize, usize, usize))
        requires
            self.wf(),
            self.leftcol + self.width <= usize::MAX,
            self.topline + self.height <= usize::MAX,
        ensures
            r.0 == self.topline,
            r.1 == if self.topline + self.height <= self.buffer.lines {
                self.topline + self.height
            } else {
                self.buffer.lines as int
            },
            r.2 == self.leftcol,
            r.3 == self.leftcol + self.width,
            r.4 == self.height - (r.1 - self.topline),
            self.topline <= r.1 <= self.buffer.lines,
    {
        let end = if self.buffer.lines - self.topline < self.height {
            self.buffer.lines
        } else {
            self.topline + self.height
        };
        let shown = end - self.topline;
        let filler = self.height - shown;
        (self.topline, end, self.leftcol, self.leftcol + self.width, filler)
    }

    /// Replaces the buffer and returns the view to the top left.
    pub fn set_buffer(&mut self, buffer: Buffer)
        requires
            old(self).wf(),
            buffer.wf(),
        ensures
            final(self).wf(),
            final(self).buffer == buffer,
            final(self).cursor.row == 0,
            final(self).cursor.col == 0,
            final(self).topline == 0,
            final(self).leftcol == 0,
            final(self).width == old(self).width,
            final(self).height == old(self).height,
    {
        proof {
            lemma_line_structure(buffer.text(), 0);
        }
        self.buffer = buffer;
        self.topline = 0;
        self.leftcol = 0;
        self.cursor.row = 0;
        self.cursor.col = 0;
    }
}

} // verus!
