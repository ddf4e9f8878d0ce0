//! Laws of the editing core, proved once and for all over the observable
//! `ViewState`.  Every window operation's contract says it realizes the
//! corresponding step function, so these statements carry over to any
//! sequence of the executable operations.

use crate::text::{
    lemma_insert_in_line, lemma_insert_newline, lemma_line_structure, lemma_remove_in_line,
    lemma_remove_insert, lemma_remove_terminator, line_count, line_text_len, nl_count,
};
use crate::window::ViewState;
use vstd::prelude::*;

verus! {

/// Cursor bounds: every movement step keeps the cursor inside the viewport
/// and on a real line, with `0 <= row < height` and
/// `0 <= col <= current line's text length`; so any sequence of moves does.
pub proof fn lemma_cursor_moves_preserve_bounds(st: ViewState)
    requires
        st.wf(),
    ensures
        st.up_step().wf(),
        st.down_step().wf(),
        st.left_step().wf(),
        st.right_step().wf(),
        st.up_step().row < st.height,
        st.up_step().col <= line_text_len(st.up_step().text, st.up_step().cur_line()),
        st.down_step().row < st.height,
        st.down_step().col <= line_text_len(st.down_step().text, st.down_step().cur_line()),
        st.left_step().col <= line_text_len(st.left_step().text, st.left_step().cur_line()),
        st.right_step().col <= line_text_len(st.right_step().text, st.right_step().cur_line()),
{
    lemma_line_structure(st.text, st.up_step().cur_line());
    lemma_line_structure(st.text, st.down_step().cur_line());
    lemma_line_structure(st.text, st.cur_line());
}

/// Line-count bookkeeping: typing adds exactly one line when and only when
/// the character is the line terminator, and backspace removes exactly one
/// line when and only when it joins two lines; both preserve the state's
/// bounds, so the counts stay right over any sequence of edits.
pub proof fn lemma_edit_line_counts(st: ViewState, c: char)
    requires
        st.wf(),
    ensures
        st.type_step(c).wf(),
        st.back_step().wf(),
        nl_count(st.type_step(c).text) == nl_count(st.text) + (if c == '\n' {
            1int
        } else {
            0int
        }),
        nl_count(st.back_step().text) == nl_count(st.text) - (if st.col == 0
            && st.cur_line() > 0 {
            1int
        } else {
            0int
        }),
{
    let s = st.text;
    let n = st.cur_line();
    if c == '\n' {
        lemma_insert_newline(s, n, st.col as int);
    } else {
        lemma_insert_in_line(s, n, st.col as int, c);
    }
    if st.col > 0 {
        lemma_remove_in_line(s, n, st.col - 1);
    } else if n > 0 {
        lemma_line_structure(s, n - 1);
        lemma_remove_terminator(s, n - 1);
    }
}

/// Insert/delete inverse: typing any character other than the line
/// terminator and then backspacing restores the text, the cursor position
/// and the scroll state exactly.
pub proof fn lemma_type_backspace_inverse(st: ViewState, c: char)
    requires
        st.wf(),
        c != '\n',
    ensures
        st.type_step(c).back_step() == st,
{
    let s = st.text;
    let n = st.cur_line();
    let k = st.col as int;
    lemma_insert_in_line(s, n, k, c);
    lemma_remove_insert(s, crate::text::line_start(s, n) + k, c);
    assert(st.type_step(c).back_step() =~= st);
}

/// Newline split and join: typing the terminator at column `k` of a line of
/// text length `L` leaves line `n` holding the first `k` characters and
/// line `n + 1` holding the other `L - k`; one backspace then restores the
/// text, the column and the absolute line exactly, and — whenever the
/// typing did not have to scroll — the whole state.
pub proof fn lemma_newline_split_join(st: ViewState)
    requires
        st.wf(),
    ensures
        line_text_len(st.type_step('\n').text, st.cur_line()) == st.col,
        line_text_len(st.type_step('\n').text, st.cur_line() + 1) == line_text_len(
            st.text,
            st.cur_line(),
        ) - st.col,
        st.type_step('\n').cur_line() == st.cur_line() + 1,
        st.type_step('\n').col == 0,
        st.type_step('\n').back_step().text == st.text,
        st.type_step('\n').back_step().col == st.col,
        st.type_step('\n').back_step().cur_line() == st.cur_line(),
        st.row + 1 < st.height ==> st.type_step('\n').back_step() == st,
{
    let s = st.text;
    let n = st.cur_line();
    let k = st.col as int;
    lemma_insert_newline(s, n, k);
    lemma_remove_insert(s, crate::text::line_start(s, n) + k, '\n');
    if st.row + 1 < st.height {
        assert(st.type_step('\n').back_step() =~= st);
    }
}

/// Idempotent no-ops at the boundaries: moving up on the first line of the
/// first viewport page changes nothing, and backspace at the very start of
/// the document changes nothing.
pub proof fn lemma_boundary_noops(st: ViewState)
    requires
        st.wf(),
    ensures
        st.row == 0 && st.topline == 0 ==> st.up_step() == st,
        st.cur_line() == 0 && st.col == 0 ==> st.back_step() == st,
{
}

} // verus!
