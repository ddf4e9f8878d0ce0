//! The input dispatcher: one decoded key event comes in, is routed by the
//! current mode to the viewport or the mode state machine, and the outcome
//! says whether a redraw is needed and which outside action (quit, save,
//! load, report) the caller must perform.  Reading keys, writing files and
//! leaving the process are the caller's work; every decision is made here.

use crate::mode::{change_mode, Mode, Store};
use crate::window::Window;
use vstd::prelude::*;
use vstd::string::StrSliceExecFns;
use vstd::string::StringExecFns;

verus! {

/// One decoded key event.
#[derive(Debug, Clone, Copy, PartialEq, Eq, Structural)]
pub enum Key {
    Char(char),
    Enter,
    Backspace,
    Esc,
    Up,
    Down,
    Left,
    Right,
    /// The conventional cancel-signal combination, honored in every mode.
    Interrupt,
    Other,
}

/// The outside work a dispatch asks its caller to perform.
#[derive(Debug)]
pub enum Action {
    /// Nothing beyond what the core already did.
    Nothing,
    /// Terminate cleanly, restoring the terminal first.
    Quit,
    /// Write the active buffer's content to its associated path.
    Save,
    /// No path is associated with the buffer: report it; nothing is written.
    ReportNoPath,
    /// Load the file at this path into a fresh buffer and switch to it.
    Load(String),
    /// The command line held no known command: report it.
    ReportUnknown(String),
}

/// What one dispatch produced: whether the visible state changed, and the
/// action the caller owes.
pub struct KeyOutcome {
    pub redraw: bool,
    pub action: Action,
}

pub open spec fn is_ws(c: char) -> bool {
    c == ' ' || c == '\t'
}

/// Index of the first non-whitespace character at or after `i`, or the
/// length if there is none.
pub open spec fn first_non_ws(s: Seq<char>, i: int) -> int
    decreases s.len() - i,
{
    if i < 0 || i >= s.len() {
        s.len() as int
    } else if !is_ws(s[i]) {
        i
    } else {
        first_non_ws(s, i + 1)
    }
}

/// One past the last non-whitespace character, or zero if there is none.
pub open spec fn last_non_ws_end(s: Seq<char>) -> int
    decreases s.len(),
{
    if s.len() == 0 {
        0
    } else if !is_ws(s.last()) {
        s.len() as int
    } else {
        last_non_ws_end(s.drop_last())
    }
}

/// `s` with leading and trailing whitespace removed.
pub open spec fn trimmed(s: Seq<char>) -> Seq<char> {
    if first_non_ws(s, 0) >= last_non_ws_end(s) {
        Seq::empty()
    } else {
        s.subrange(first_non_ws(s, 0), last_non_ws_end(s))
    }
}

/// The command language, at specification level.
pub ghost enum CmdSpec {
    Quit,
    Write,
    WriteTo(Seq<char>),
    Edit(Seq<char>),
    EditNone,
    Unknown(Seq<char>),
}

/// The command named by an already-trimmed command line.
pub open spec fn parse_cmd(t: Seq<char>) -> CmdSpec {
    if t == seq!['q'] {
        CmdSpec::Quit
    } else if t == seq!['w'] {
        CmdSpec::Write
    } else if t == seq!['e'] {
        CmdSpec::EditNone
    } else if t.len() >= 2 && t[0] == 'w' && t[1] == ' ' {
        CmdSpec::WriteTo(trimmed(t.subrange(2, t.len() as int)))
    } else if t.len() >= 2 && t[0] == 'e' && t[1] == ' ' {
        CmdSpec::Edit(trimmed(t.subrange(2, t.len() as int)))
    } else {
        CmdSpec::Unknown(t)
    }
}

/// The command language, as parsed.
pub enum Cmd {
    Quit,
    Write,
    WriteTo(String),
    Edit(String),
    EditNone,
    Unknown(String),
}

pub open spec fn cmd_view(c: Cmd) -> CmdSpec {
    match c {
        Cmd::Quit => CmdSpec::Quit,
        Cmd::Write => CmdSpec::Write,
        Cmd::WriteTo(p) => CmdSpec::WriteTo(p@),
        Cmd::Edit(p) => CmdSpec::Edit(p@),
        Cmd::EditNone => CmdSpec::EditNone,
        Cmd::Unknown(u) => CmdSpec::Unknown(u@),
    }
}

/// Does the action discharge what the parsed command asks for, given
/// whether the buffer has an associated path?
pub open spec fn action_matches(a: Action, c: CmdSpec, path_set: bool) -> bool {
    match c {
        CmdSpec::Quit => a is Quit,
        CmdSpec::Write => if path_set {
            a is Save
        } else {
            a is ReportNoPath
        },
        CmdSpec::WriteTo(_) => a is Save,
        CmdSpec::Edit(p) => a matches Action::Load(q) && q@ == p,
        CmdSpec::EditNone => a is Nothing,
        CmdSpec::Unknown(u) => a matches Action::ReportUnknown(q) && q@ == u,
    }
}

fn is_ws_char(c: char) -> (b: bool)
    ensures
        b == is_ws(c),
{
    c == ' ' || c == '\t'
}

proof fn lemma_first_non_ws_unique(s: Seq<char>, i: int, a: int)
    requires
        0 <= i <= a <= s.len(),
        forall|j: int| i <= j < a ==> is_ws(#[trigger] s[j]),
        a < s.len() ==> !is_ws(s[a]),
    ensures
        first_non_ws(s, i) == a,
    decreases a - i,
{
    if i < a {
        lemma_first_non_ws_unique(s, i + 1, a);
    }
}

proof fn lemma_last_non_ws_end_unique(s: Seq<char>, b: int)
    requires
        0 <= b <= s.len(),
        forall|j: int| b <= j < s.len() ==> is_ws(#[trigger] s[j]),
        b >= 1 ==> !is_ws(s[b - 1]),
    ensures
        last_non_ws_end(s) == b,
    decreases s.len(),
{
    if s.len() > 0 {
        if b < s.len() {
            lemma_last_non_ws_end_unique(s.drop_last(), b);
        }
    }
}

proof fn lemma_last_non_ws_end_bounds(s: Seq<char>)
    ensures
        0 <= last_non_ws_end(s) <= s.len(),
    decreases s.len(),
{
    if s.len() > 0 {
        lemma_last_non_ws_end_bounds(s.drop_last());
    }
}

/// `s` without leading or trailing whitespace.
pub fn trim_str<'a>(s: &'a str) -> (t: &'a str)
    ensures
        t@ == trimmed(s@),
{
    let n = s.unicode_len();
    let mut a: usize = 0;
    while a < n && is_ws_char(s.get_char(a))
        invariant
            n == s@.len(),
            0 <= a <= n,
            forall|j: int| 0 <= j < a ==> is_ws(#[trigger] s@[j]),
        decreases n - a,
    {
        a += 1;
    }
    let mut b: usize = n;
    while b > a && is_ws_char(s.get_char(b - 1))
        invariant
            n == s@.len(),
            0 <= a <= b <= n,
            forall|j: int| b <= j < n ==> is_ws(#[trigger] s@[j]),
        decreases b,
    {
        b -= 1;
    }
    proof {
        lemma_first_non_ws_unique(s@, 0, a as int);
        lemma_last_non_ws_end_bounds(s@);
        if a == b {
            if a < n {
                assert(is_ws(s@[a as int]));
                assert(false);
            }
            assert(s@.subrange(a as int, b as int) =~= Seq::<char>::empty());
        } else {
            lemma_last_non_ws_end_unique(s@, b as int);
        }
    }
    s.substring_char(a, b)
}

/// Parses an already-trimmed command line.
pub fn parse_command(t: &str) -> (c: Cmd)
    ensures
        cmd_view(c) == parse_cmd(t@),
{
    let n = t.unicode_len();
    if n == 1 {
        let c0 = t.get_char(0);
        proof {
            assert(seq!['q'].len() == 1);
            if c0 == 'q' {
                assert(t@ =~= seq!['q']);
            }
            if c0 == 'w' {
                assert(t@ =~= seq!['w']);
            }
            if c0 == 'e' {
                assert(t@ =~= seq!['e']);
            }
        }
        if c0 == 'q' {
            Cmd::Quit
        } else if c0 == 'w' {
            Cmd::Write
        } else if c0 == 'e' {
            Cmd::EditNone
        } else {
            Cmd::Unknown(String::from_str(t))
        }
    } else if n >= 2 {
        let c0 = t.get_char(0);
        let c1 = t.get_char(1);
        if c0 == 'w' && c1 == ' ' {
            let arg = trim_str(t.substring_char(2, n));
            Cmd::WriteTo(String::from_str(arg))
        } else if c0 == 'e' && c1 == ' ' {
            let arg = trim_str(t.substring_char(2, n));
            Cmd::Edit(String::from_str(arg))
        } else {
            Cmd::Unknown(String::from_str(t))
        }
    } else {
        Cmd::Unknown(String::from_str(t))
    }
}

/// Routes one key event by the current mode, mutating the window and the
/// mode state, and reports whether a redraw is needed and what outside
/// action the caller owes.  The interrupt key quits in every mode.  In
/// Command mode, Enter interprets the accumulated command line, trimmed of
/// whitespace, clears it, and returns to Normal mode whatever the outcome;
/// `w` with no associated path asks for a report, never a write.
pub fn handle_keys(window: &mut Window, store: &mut Store, key: Key) -> (out: KeyOutcome)
    requires
        old(window).wf(),
        old(window).view().text.len() + 2 <= usize::MAX,
    ensures
        final(window).wf(),
        final(window).width == old(window).width,
        final(window).height == old(window).height,
        final(window).leftcol == old(window).leftcol,
        final(window).buffer.id == old(window).buffer.id,
        final(window).buffer.line_termination == old(window).buffer.line_termination,
        key == Key::Interrupt ==> out.action is Quit && *final(window) == *old(window)
            && *final(store) == *old(store) && out.redraw,
        old(store).mode == Mode::Normal && key == Key::Char('i') ==> final(store).mode
            == Mode::Insert && final(store).command == old(store).command && *final(window)
            == *old(window) && out.action is Nothing && out.redraw,
        old(store).mode == Mode::Normal && key == Key::Char(':') ==> final(store).mode
            == Mode::Command && final(store).command == old(store).command && *final(window)
            == *old(window) && out.action is Nothing && out.redraw,
        key matches Key::Char(c) && old(store).mode == Mode::Normal && c != 'i' && c != ':'
            ==> *final(window) == *old(window) && *final(store) == *old(store) && out.action
            is Nothing && !out.redraw,
        old(store).mode == Mode::Normal && (key == Key::Enter || key == Key::Backspace || key
            == Key::Esc || key == Key::Other) ==> *final(window) == *old(window) && *final(store) == *old(store) && out.action is Nothing && !out.redraw,
        (old(store).mode == Mode::Normal || old(store).mode == Mode::Insert) && key
            == Key::Up ==> final(window).view() == old(window).view().up_step() && final(window).same_frame(*old(window)) && final(window).buffer.edited == old(window).buffer.edited
            && *final(store) == *old(store) && out.action is Nothing && out.redraw,
        (old(store).mode == Mode::Normal || old(store).mode == Mode::Insert) && key
            == Key::Down ==> final(window).view() == old(window).view().down_step() && final(window).same_frame(*old(window)) && final(window).buffer.edited == old(window).buffer.edited
            && *final(store) == *old(store) && out.action is Nothing && out.redraw,
        (old(store).mode == Mode::Normal || old(store).mode == Mode::Insert) && key
            == Key::Left ==> final(window).view() == old(window).view().left_step() && final(window).same_frame(*old(window)) && final(window).buffer.edited == old(window).buffer.edited
            && *final(store) == *old(store) && out.action is Nothing && out.redraw,
        (old(store).mode == Mode::Normal || old(store).mode == Mode::Insert) && key
            == Key::Right ==> final(window).view() == old(window).view().right_step() && final(window).same_frame(*old(window)) && final(window).buffer.edited == old(window).buffer.edited
            && *final(store) == *old(store) && out.action is Nothing && out.redraw,
        key matches Key::Char(c) ==> (old(store).mode == Mode::Insert ==> final(window).view()
            == old(window).view().type_step(c) && final(window).same_frame(*old(window))
            && final(window).buffer.edited && *final(store) == *old(store) && out.action
            is Nothing && out.redraw),
        old(store).mode == Mode::Insert && key == Key::Enter ==> final(window).view() == old(
            window,
        ).view().type_step('\n') && final(window).same_frame(*old(window)) && final(window).buffer.edited && *final(store) == *old(store) && out.action is Nothing && out.redraw,
        old(store).mode == Mode::Insert && key == Key::Backspace ==> final(window).view()
            == old(window).view().back_step() && final(window).same_frame(*old(window))
            && *final(store) == *old(store) && out.action is Nothing && out.redraw,
        old(store).mode == Mode::Insert && key == Key::Esc ==> final(store).mode
            == Mode::Normal && final(store).command == old(store).command && *final(window)
            == *old(window) && out.action is Nothing && out.redraw,
        old(store).mode == Mode::Insert && key == Key::Other ==> *final(window) == *old(window)
            && *final(store) == *old(store) && out.action is Nothing && !out.redraw,
        old(store).mode == Mode::Command && key == Key::Esc ==> final(store).mode
            == Mode::Normal && final(store).command@ == Seq::<char>::empty() && *final(window)
            == *old(window) && out.action is Nothing && out.redraw,
        key matches Key::Char(c) ==> (old(store).mode == Mode::Command ==> final(store).mode
            == Mode::Command && final(store).command@ == old(store).command@.push(c)
            && *final(window) == *old(window) && out.action is Nothing && out.redraw),
        old(store).mode == Mode::Command && key == Key::Backspace && old(store).command@.len()
            > 0 ==> final(store).mode == Mode::Command && final(store).command@ == old(
            store,
        ).command@.drop_last() && *final(window) == *old(window) && out.action is Nothing
            && out.redraw,
        old(store).mode == Mode::Command && key == Key::Backspace && old(store).command@.len()
            == 0 ==> final(store).mode == Mode::Normal && final(store).command@.len() == 0
            && *final(window) == *old(window) && out.action is Nothing && out.redraw,
        old(store).mode == Mode::Command && (key == Key::Up || key == Key::Down || key
            == Key::Left || key == Key::Right || key == Key::Other) ==> *final(window)
            == *old(window) && *final(store) == *old(store) && out.action is Nothing
            && !out.redraw,
        old(store).mode == Mode::Command && key == Key::Enter ==> final(store).mode
            == Mode::Normal && final(store).command@ == Seq::<char>::empty() && out.redraw
            && action_matches(
            out.action,
            parse_cmd(trimmed(old(store).command@)),
            old(window).buffer.path_view() is Some,
        ) && (parse_cmd(trimmed(old(store).command@)) matches CmdSpec::WriteTo(p) ==> final(window).buffer.path_view() == Some(p) && final(window).buffer.name@
            == crate::buffer::name_of(p) && final(window).view() == old(window).view() && final(window).buffer.edited == old(window).buffer.edited) && (!(parse_cmd(trimmed(old(store).command@)) matches CmdSpec::WriteTo(_)) ==> *final(window) == *old(window)),
{
    if key == Key::Interrupt {
        return KeyOutcome { redraw: true, action: Action::Quit };
    }
    match store.mode {
        Mode::Normal => {
            match key {
                Key::Char(c) => {
                    if c == 'i' {
                        change_mode(store, Mode::Insert);
                        KeyOutcome { redraw: true, action: Action::Nothing }
                    } else if c == ':' {
                        change_mode(store, Mode::Command);
                        KeyOutcome { redraw: true, action: Action::Nothing }
                    } else {
                        KeyOutcome { redraw: false, action: Action::Nothing }
                    }
                },
                Key::Up => {
                    window.cursor_up();
                    KeyOutcome { redraw: true, action: Action::Nothing }
                },
                Key::Down => {
                    window.cursor_down();
                    KeyOutcome { redraw: true, action: Action::Nothing }
                },
                Key::Left => {
                    window.cursor_left();
                    KeyOutcome { redraw: true, action: Action::Nothing }
                },
                Key::Right => {
                    window.cursor_right();
                    KeyOutcome { redraw: true, action: Action::Nothing }
                },
                _ => KeyOutcome { redraw: false, action: Action::Nothing },
            }
        },
        Mode::Insert => {
            match key {
                Key::Char(c) => {
                    window.type_char(c);
                    KeyOutcome { redraw: true, action: Action::Nothing }
                },
                Key::Enter => {
                    window.type_char('\n');
                    KeyOutcome { redraw: true, action: Action::Nothing }
                },
                Key::Backspace => {
                    window.backspace();
                    KeyOutcome { redraw: true, action: Action::Nothing }
                },
                Key::Up => {
                    window.cursor_up();
                    KeyOutcome { redraw: true, action: Action::Nothing }
                },
                Key::Down => {
                    window.cursor_down();
                    KeyOutcome { redraw: true, action: Action::Nothing }
                },
                Key::Left => {
                    window.cursor_left();
                    KeyOutcome { redraw: true, action: Action::Nothing }
                },
                Key::Right => {
                    window.cursor_right();
                    KeyOutcome { redraw: true, action: Action::Nothing }
                },
                Key::Esc => {
                    change_mode(store, Mode::Normal);
                    KeyOutcome { redraw: true, action: Action::Nothing }
                },
                _ => KeyOutcome { redraw: false, action: Action::Nothing },
            }
        },
        Mode::Command => {
            match key {
                Key::Esc => {
                    store.command = String::new();
                    change_mode(store, Mode::Normal);
                    KeyOutcome { redraw: true, action: Action::Nothing }
                },
                Key::Char(c) => {
                    crate::line_index::string_push(&mut store.command, c);
                    KeyOutcome { redraw: true, action: Action::Nothing }
                },
                Key::Backspace => {
                    if store.command.as_str().unicode_len() > 0 {
                        let _ = crate::line_index::string_pop(&mut store.command);
                    } else {
                        change_mode(store, Mode::Normal);
                    }
                    KeyOutcome { redraw: true, action: Action::Nothing }
                },
                Key::Enter => {
                    let cmd = store.command.clone();
                    store.command = String::new();
                    let t = trim_str(cmd.as_str());
                    let action = match parse_command(t) {
                        Cmd::Quit => Action::Quit,
                        Cmd::Write => match &window.buffer.file_path {
                            Some(_) => Action::Save,
                            None => Action::ReportNoPath,
                        },
                        Cmd::WriteTo(p) => {
                            window.buffer.set_file_path(p.as_str());
                            Action::Save
                        },
                        Cmd::Edit(p) => Action::Load(p),
                        Cmd::EditNone => Action::Nothing,
                        Cmd::Unknown(u) => Action::ReportUnknown(u),
                    };
                    change_mode(store, Mode::Normal);
                    KeyOutcome { redraw: true, action }
                },
                _ => KeyOutcome { redraw: false, action: Action::Nothing },
            }
        },
    }
}

} // verus!
