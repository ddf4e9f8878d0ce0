//! The line index: the document's text container.  The container itself is
//! `ropey::Rope`, reached only through the trusted wrappers below; its
//! contents are modelled by the uninterpreted `rope_text`, and everything
//! said about line boundaries holds because the rope is built without the
//! `cr_lines` and `unicode_lines` features, under which the only line break
//! ropey recognizes is the newline character.

use crate::text::{insert_at, line_count, line_start, line_text_len, remove_at};
use crate::text::{lemma_line_structure, lemma_nl_le_len};
use vstd::prelude::*;

verus! {

#[verifier::external_type_specification]
#[verifier::external_body]
pub struct ExRope(ropey::Rope);

/// The characters the rope holds, in order.
pub uninterp spec fn rope_text(r: ropey::Rope) -> Seq<char>;

/// Relies on ropey::Rope::new: an empty rope.
#[verifier::external_body]
pub fn rope_new() -> (r: ropey::Rope)
    ensures
        rope_text(r) == Seq::<char>::empty(),
{
    ropey::Rope::new()
}

/// Relies on ropey::Rope::from_str: a rope holding exactly the characters
/// of `s`.
#[verifier::external_body]
pub fn rope_from_str(s: &str) -> (r: ropey::Rope)
    ensures
        rope_text(r) == s@,
{
    ropey::Rope::from_str(s)
}

/// Relies on ropey::Rope::len_chars: the total number of characters.
#[verifier::external_body]
pub fn rope_len_chars(r: &ropey::Rope) -> (n: usize)
    ensures
        n == rope_text(*r).len(),
{
    r.len_chars()
}

/// Relies on ropey::Rope::len_lines: one more than the number of line
/// breaks, and a break is exactly a newline character here.
#[verifier::external_body]
pub fn rope_len_lines(r: &ropey::Rope) -> (n: usize)
    ensures
        n == line_count(rope_text(*r)),
{
    r.len_lines()
}

/// Relies on ropey::Rope::line_to_char: the character offset at which a
/// line begins, one past the end of the text for the one-past-the-end line
/// index.  Larger line indexes panic, so they are ruled out here.
#[verifier::external_body]
pub fn rope_line_to_char(r: &ropey::Rope, n: usize) -> (c: usize)
    requires
        n <= line_count(rope_text(*r)),
    ensures
        c == line_start(rope_text(*r), n as int),
{
    r.line_to_char(n)
}

/// Relies on ropey::Rope::char: the character at an offset.  Out-of-bounds
/// offsets panic, so they are ruled out here.
#[verifier::external_body]
pub fn rope_char_at(r: &ropey::Rope, i: usize) -> (c: char)
    requires
        i < rope_text(*r).len(),
    ensures
        c == rope_text(*r)[i as int],
{
    r.char(i)
}

/// Relies on ropey::Rope::insert_char: inserts one character at a character
/// offset, shifting what follows.  Offsets past the end panic, so they are
/// ruled out here.
#[verifier::external_body]
pub fn rope_insert_char(r: &mut ropey::Rope, i: usize, c: char)
    requires
        i <= rope_text(*old(r)).len(),
    ensures
        rope_text(*final(r)) == insert_at(rope_text(*old(r)), i as int, c),
{
    r.insert_char(i, c)
}

/// Relies on ropey::Rope::remove, on the one-character inclusive range:
/// removes the character at the given offset.  Out-of-bounds ranges panic,
/// so they are ruled out here.
#[verifier::external_body]
pub fn rope_remove_char(r: &mut ropey::Rope, i: usize)
    requires
        i < rope_text(*old(r)).len(),
    ensures
        rope_text(*final(r)) == remove_at(rope_text(*old(r)), i as int),
{
    r.remove(i..=i)
}

/// Length of line `n` excluding its terminating newline, computed from the
/// starts of lines `n` and `n + 1`.
pub fn rope_line_text_len(r: &ropey::Rope, n: usize) -> (l: usize)
    requires
        n < line_count(rope_text(*r)),
    ensures
        l == line_text_len(rope_text(*r), n as int),
{
    let lines = rope_len_lines(r);
    let a = rope_line_to_char(r, n);
    let b = rope_line_to_char(r, n + 1);
    proof {
        lemma_line_structure(rope_text(*r), n as int);
    }
    if n + 1 < lines {
        b - a - 1
    } else {
        b - a
    }
}

/// The text of line `n`, excluding its terminating newline.
pub fn rope_line_string(r: &ropey::Rope, n: usize) -> (out: String)
    requires
        n < line_count(rope_text(*r)),
    ensures
        out@ == crate::text::line_chars(rope_text(*r), n as int),
{
    let a = rope_line_to_char(r, n);
    let l = rope_line_text_len(r, n);
    let chars = rope_len_chars(r);
    proof {
        lemma_line_structure(rope_text(*r), n as int);
        lemma_nl_le_len(rope_text(*r));
    }
    let mut out = String::new();
    let mut i: usize = 0;
    while i < l
        invariant
            a == line_start(rope_text(*r), n as int),
            l == line_text_len(rope_text(*r), n as int),
            chars == rope_text(*r).len(),
            a + l <= chars,
            0 <= i <= l,
            out@ == rope_text(*r).subrange(a as int, a + i),
        decreases l - i,
    {
        let c = rope_char_at(r, a + i);
        string_push(&mut out, c);
        proof {
            assert(rope_text(*r).subrange(a as int, a + i + 1) =~= rope_text(*r).subrange(
                a as int,
                a + i,
            ).push(c));
        }
        i = i + 1;
    }
    proof {
        assert(out@ =~= crate::text::line_chars(rope_text(*r), n as int));
    }
    out
}

/// Relies on String::push: appends one character at the end.
#[verifier::external_body]
pub fn string_push(s: &mut String, c: char)
    ensures
        final(s)@ == old(s)@.push(c),
{
    s.push(c)
}

/// Relies on String::pop: removes and returns the last character, or
/// returns nothing from an empty string.
#[verifier::external_body]
pub fn string_pop(s: &mut String) -> (r: Option<char>)
    ensures
        old(s)@.len() == 0 ==> r is None && final(s)@ == old(s)@,
        old(s)@.len() > 0 ==> r == Some(old(s)@.last()) && final(s)@ == old(s)@.drop_last(),
{
    s.pop()
}

} // verus!
