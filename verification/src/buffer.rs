//! The document buffer: a line index plus identity, the dirty flag, the
//! associated file path, and the cached line count, which is kept equal to
//! the number of line terminators in the content plus one.

use crate::line_index::{rope_from_str, rope_len_lines, rope_line_string, rope_new, rope_text};
use crate::text::{line_chars, line_count, nl_count};
use vstd::prelude::*;
use vstd::string::StrSliceExecFns;
use vstd::string::StringExecFns;

verus! {

#[derive(Debug, Clone, PartialEq, Eq, Structural)]
pub enum LineTermination {
    CRLF,
    LF,
    CR,
}

/// The separator written between lines when the buffer is serialized.
pub fn get_line_seperator(terminator: &LineTermination) -> (r: &str)
    ensures
        *terminator == LineTermination::CRLF ==> r@ == "\r\n"@,
        *terminator == LineTermination::LF ==> r@ == "\n"@,
        *terminator == LineTermination::CR ==> r@ == "\r"@,
{
    match terminator {
        LineTermination::CRLF => "\r\n",
        LineTermination::LF => "\n",
        LineTermination::CR => "\r",
    }
}

/// The termination style named by a separator string.  Anything but the
/// three separators is ruled out, where the behaviour would otherwise be a
/// panic.
pub fn line_termination_from_str(s: &str) -> (t: LineTermination)
    requires
        s@ == "\r\n"@ || s@ == "\n"@ || s@ == "\r"@,
    ensures
        s@ == "\r\n"@ ==> t == LineTermination::CRLF,
        s@ == "\n"@ ==> t == LineTermination::LF,
        s@ == "\r"@ ==> t == LineTermination::CR,
{
    proof {
        reveal_strlit("\r\n");
        reveal_strlit("\n");
        reveal_strlit("\r");
    }
    let len = s.unicode_len();
    if len == 2 {
        LineTermination::CRLF
    } else {
        let c = s.get_char(0);
        if c == '\n' {
            LineTermination::LF
        } else {
            LineTermination::CR
        }
    }
}

/// The part of a path after its last separator; the whole path when it has
/// none.
pub open spec fn name_of(p: Seq<char>) -> Seq<char>
    decreases p.len(),
{
    if p.len() == 0 {
        p
    } else if p.last() == '/' {
        Seq::empty()
    } else {
        name_of(p.drop_last()).push(p.last())
    }
}

proof fn lemma_name_of_suffix(p: Seq<char>, j: int)
    requires
        0 <= j <= p.len(),
        j >= 1 ==> p[j - 1] == '/',
        forall|k: int| j <= k < p.len() ==> #[trigger] p[k] != '/',
    ensures
        name_of(p) == p.subrange(j, p.len() as int),
    decreases p.len(),
{
    if j == p.len() {
        if p.len() > 0 {
            assert(p.subrange(j, p.len() as int) =~= Seq::<char>::empty());
        } else {
            assert(p.subrange(0, 0) =~= p);
        }
    } else {
        assert(p.last() != '/');
        lemma_name_of_suffix(p.drop_last(), j);
        assert(p.drop_last().subrange(j, p.len() - 1) =~= p.subrange(j, p.len() - 1));
        assert(p.subrange(j, p.len() - 1).push(p.last()) =~= p.subrange(j, p.len() as int));
    }
}

/// The buffer name a path gives: its last segment.
pub fn name_from_path(path: &str) -> (name: String)
    ensures
        name@ == name_of(path@),
{
    let n = path.unicode_len();
    let mut cut: usize = 0;
    let mut k: usize = 0;
    while k < n
        invariant
            n == path@.len(),
            0 <= cut <= k <= n,
            cut >= 1 ==> path@[cut - 1] == '/',
            forall|t: int| cut <= t < k ==> #[trigger] path@[t] != '/',
        decreases n - k,
    {
        if path.get_char(k) == '/' {
            cut = k + 1;
        }
        k += 1;
    }
    proof {
        lemma_name_of_suffix(path@, cut as int);
    }
    let tail = path.substring_char(cut, n);
    String::from_str(tail)
}

pub struct Buffer {
    pub id: usize,
    pub name: String,
    pub content: ropey::Rope,
    pub edited: bool,
    pub lines: usize,
    pub line_termination: LineTermination,
    pub file_path: Option<String>,
}

impl Buffer {
    /// The characters the buffer holds.
    pub open spec fn text(self) -> Seq<char> {
        rope_text(self.content)
    }

    /// The cached line count agrees with the content: the number of line
    /// terminators plus one.
    pub open spec fn wf(self) -> bool {
        self.lines == line_count(self.text())
    }

    /// The associated path, as characters.
    pub open spec fn path_view(self) -> Option<Seq<char>> {
        match self.file_path {
            Some(p) => Some(p@),
            None => None,
        }
    }

    /// A new, unsaved buffer: empty content, one line, no path.
    pub fn empty(id: usize) -> (b: Buffer)
        ensures
            b.wf(),
            b.text() == Seq::<char>::empty(),
            b.id == id,
            b.name@ == "[No Name]"@,
            !b.edited,
            b.lines == 1,
            b.line_termination == LineTermination::LF,
            b.path_view() is None,
    {
        let content = rope_new();
        proof {
            assert(nl_count(Seq::<char>::empty()) == 0);
        }
        Buffer {
            id,
            name: String::from_str("[No Name]"),
            content,
            edited: false,
            lines: 1,
            line_termination: LineTermination::LF,
            file_path: None,
        }
    }

    /// A buffer loaded from a file's text: the content is exactly `content`,
    /// the line count is computed from it, and the name and path come from
    /// `file_path`.
    pub fn from_file_content(id: usize, file_path: &str, content: &str) -> (b: Buffer)
        ensures
            b.wf(),
            b.text() == content@,
            b.id == id,
            !b.edited,
            b.lines == line_count(content@),
            b.line_termination == LineTermination::LF,
            b.path_view() == Some(file_path@),
            b.name@ == name_of(file_path@),
    {
        let rope = rope_from_str(content);
        let lines = rope_len_lines(&rope);
        let mut b = Buffer {
            id,
            name: String::new(),
            content: rope,
            edited: false,
            lines,
            line_termination: LineTermination::LF,
            file_path: None,
        };
        b.set_file_path(file_path);
        b
    }

    /// Associates the buffer with a path and derives its name from the
    /// path's last segment; the content is untouched.
    pub fn set_file_path(&mut self, file_path: &str)
        ensures
            final(self).path_view() == Some(file_path@),
            final(self).name@ == name_of(file_path@),
            final(self).id == old(self).id,
            final(self).content == old(self).content,
            final(self).edited == old(self).edited,
            final(self).lines == old(self).lines,
            final(self).line_termination == old(self).line_termination,
    {
        self.file_path = Some(String::from_str(file_path));
        self.name = name_from_path(file_path);
    }

    /// The text of line `n`, excluding its terminator.
    pub fn line(&self, n: usize) -> (out: String)
        requires
            self.wf(),
            n < self.lines,
        ensures
            out@ == line_chars(self.text(), n as int),
    {
        rope_line_string(&self.content, n)
    }
}

/// Hands out process-unique buffer identifiers, monotonically increasing
/// and never reused.
pub struct BufferIds {
    pub next: usize,
}

impl BufferIds {
    pub fn new() -> (g: BufferIds)
        ensures
            g.next == 1,
    {
        BufferIds { next: 1 }
    }

    pub fn fresh(&mut self) -> (id: usize)
        requires
            old(self).next < usize::MAX,
        ensures
            id == old(self).next,
            final(self).next == old(self).next + 1,
    {
        let id = self.next;
        self.next = self.next + 1;
        id
    }
}

} // verus!
