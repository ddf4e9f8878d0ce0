//! The mathematical model of a document: a sequence of characters in which
//! the newline character is an ordinary element.  Line `n` is the span of
//! characters between the `n`th newline and the next one (or the end of the
//! document); the newline that ends a line belongs to that line.

use vstd::prelude::*;

verus! {

/// Number of newline characters in `s`.
pub open spec fn nl_count(s: Seq<char>) -> nat
    decreases s.len(),
{
    if s.len() == 0 {
        0
    } else {
        nl_count(s.drop_last()) + (if s.last() == '\n' {
            1nat
        } else {
            0nat
        })
    }
}

/// Number of logical lines: one more than the number of newline characters.
pub open spec fn line_count(s: Seq<char>) -> nat {
    nl_count(s) + 1
}

/// Index of the first newline at or after position `i`, or `s.len()` if none.
pub open spec fn next_nl(s: Seq<char>, i: int) -> int
    decreases s.len() - i,
{
    if i < 0 || i >= s.len() {
        s.len() as int
    } else if s[i] == '\n' {
        i
    } else {
        next_nl(s, i + 1)
    }
}

/// Character offset at which line `n` begins.  Saturates at `s.len()` once
/// `n` passes the final line, matching the one-past-the-end convention of
/// line-indexed text containers.
pub open spec fn line_start(s: Seq<char>, n: int) -> int
    decreases n,
{
    if n <= 0 {
        0
    } else {
        let p = next_nl(s, line_start(s, n - 1));
        if p < s.len() {
            p + 1
        } else {
            s.len() as int
        }
    }
}

/// Length of line `n` including its terminating newline, if it has one.
pub open spec fn line_len(s: Seq<char>, n: int) -> int {
    line_start(s, n + 1) - line_start(s, n)
}

/// Length of line `n` excluding its terminating newline.
pub open spec fn line_text_len(s: Seq<char>, n: int) -> int {
    next_nl(s, line_start(s, n)) - line_start(s, n)
}

/// The characters of line `n`, without its terminating newline.
pub open spec fn line_chars(s: Seq<char>, n: int) -> Seq<char> {
    s.subrange(line_start(s, n), line_start(s, n) + line_text_len(s, n))
}

/// `s` with `c` inserted at offset `i`.
pub open spec fn insert_at(s: Seq<char>, i: int, c: char) -> Seq<char> {
    s.take(i) + seq![c] + s.skip(i)
}

/// `s` with the character at offset `i` removed.
pub open spec fn remove_at(s: Seq<char>, i: int) -> Seq<char> {
    s.take(i) + s.skip(i + 1)
}

pub proof fn lemma_nl_concat(a: Seq<char>, b: Seq<char>)
    ensures
        nl_count(a + b) == nl_count(a) + nl_count(b),
    decreases b.len(),
{
    if b.len() == 0 {
        assert(a + b =~= a);
    } else {
        assert((a + b).drop_last() =~= a + b.drop_last());
        assert((a + b).last() == b.last());
        lemma_nl_concat(a, b.drop_last());
    }
}

pub proof fn lemma_nl_le_len(s: Seq<char>)
    ensures
        nl_count(s) <= s.len(),
    decreases s.len(),
{
    if s.len() > 0 {
        lemma_nl_le_len(s.drop_last());
    }
}

pub proof fn lemma_nl_zero(s: Seq<char>)
    ensures
        (nl_count(s) == 0) <==> (forall|i: int| 0 <= i < s.len() ==> #[trigger] s[i] != '\n'),
    decreases s.len(),
{
    if s.len() > 0 {
        lemma_nl_zero(s.drop_last());
        if nl_count(s) == 0 {
            assert(forall|i: int|
                0 <= i < s.len() - 1 ==> #[trigger] s[i] == s.drop_last()[i]);
        }
    }
}

pub proof fn lemma_nl_take_split(s: Seq<char>, a: int, b: int)
    requires
        0 <= a <= b <= s.len(),
    ensures
        nl_count(s.take(b)) == nl_count(s.take(a)) + nl_count(s.subrange(a, b)),
{
    assert(s.take(b) =~= s.take(a) + s.subrange(a, b));
    lemma_nl_concat(s.take(a), s.subrange(a, b));
}

pub proof fn lemma_nl_singleton(c: char)
    ensures
        nl_count(seq![c]) == (if c == '\n' {
            1nat
        } else {
            0nat
        }),
{
    assert(seq![c].drop_last() =~= Seq::<char>::empty());
    assert(nl_count(Seq::<char>::empty()) == 0);
    assert(seq![c].last() == c);
}

/// The count of newlines strictly before a position never decreases as the
/// position grows.
pub proof fn lemma_nl_take_mono(s: Seq<char>, a: int, b: int)
    requires
        0 <= a <= b <= s.len(),
    ensures
        nl_count(s.take(a)) <= nl_count(s.take(b)),
{
    lemma_nl_take_split(s, a, b);
}

pub proof fn lemma_next_nl_props(s: Seq<char>, i: int)
    requires
        0 <= i <= s.len(),
    ensures
        i <= next_nl(s, i) <= s.len(),
        forall|j: int| i <= j < next_nl(s, i) ==> #[trigger] s[j] != '\n',
        next_nl(s, i) < s.len() ==> s[next_nl(s, i)] == '\n',
    decreases s.len() - i,
{
    if i < s.len() && s[i] != '\n' {
        lemma_next_nl_props(s, i + 1);
    }
}

pub proof fn lemma_next_nl_unique(s: Seq<char>, i: int, k: int)
    requires
        0 <= i <= k <= s.len(),
        forall|j: int| i <= j < k ==> #[trigger] s[j] != '\n',
        k < s.len() ==> s[k] == '\n',
    ensures
        next_nl(s, i) == k,
    decreases k - i,
{
    if i < k {
        lemma_next_nl_unique(s, i + 1, k);
    }
}

/// Characterization of a line's start: the prefix that ends there holds
/// exactly `n` newlines, and the character just before it (for `n >= 1`)
/// is a newline.
pub proof fn lemma_ls_count(s: Seq<char>, n: int)
    requires
        0 <= n <= nl_count(s),
    ensures
        0 <= line_start(s, n) <= s.len(),
        nl_count(s.take(line_start(s, n))) == n,
        n >= 1 ==> line_start(s, n) >= 1 && s[line_start(s, n) - 1] == '\n',
    decreases n,
{
    if n == 0 {
        assert(s.take(0) =~= Seq::<char>::empty());
    } else {
        lemma_ls_count(s, n - 1);
        let l = line_start(s, n - 1);
        let p = next_nl(s, l);
        lemma_next_nl_props(s, l);
        lemma_nl_zero(s.subrange(l, p));
        assert(forall|j: int|
            0 <= j < p - l ==> #[trigger] s.subrange(l, p)[j] == s[l + j]);
        assert(nl_count(s.subrange(l, p)) == 0);
        lemma_nl_take_split(s, l, p);
        if p == s.len() {
            assert(s.take(s.len() as int) =~= s);
            assert(nl_count(s) == n - 1);
            assert(false);
        }
        assert(s[p] == '\n');
        lemma_nl_take_split(s, p, p + 1);
        assert(s.subrange(p, p + 1) =~= seq![s[p]]);
        lemma_nl_singleton(s[p]);
        assert(nl_count(s.take(p + 1)) == n);
        assert(line_start(s, n) == p + 1);
    }
}

/// A position with the boundary shape of a line start is that line's start.
pub proof fn lemma_ls_unique(s: Seq<char>, n: int, j: int)
    requires
        0 <= n <= nl_count(s),
        0 <= j <= s.len(),
        nl_count(s.take(j)) == n,
        j == 0 || s[j - 1] == '\n',
    ensures
        line_start(s, n) == j,
{
    lemma_ls_count(s, n);
    let l = line_start(s, n);
    if j < l {
        lemma_nl_take_split(s, j, l);
        lemma_nl_zero(s.subrange(j, l));
        assert(nl_count(s.subrange(j, l)) == 0);
        if n >= 1 {
            assert(s.subrange(j, l)[l - 1 - j] == s[l - 1]);
            assert(false);
        } else {
            if j > 0 {
                lemma_nl_take_split(s, j - 1, j);
                assert(s.subrange(j - 1, j) =~= seq![s[j - 1]]);
                lemma_nl_singleton(s[j - 1]);
                assert(false);
            }
        }
    } else if j > l {
        lemma_nl_take_split(s, l, j);
        lemma_nl_zero(s.subrange(l, j));
        assert(nl_count(s.subrange(l, j)) == 0);
        if j > 0 && s[j - 1] == '\n' {
            assert(s.subrange(l, j)[j - 1 - l] == s[j - 1]);
            assert(false);
        }
    }
}

/// Geometry of line `n`: where its terminator (or the document end) sits,
/// that the line's text holds no newline, and where line `n + 1` begins.
pub proof fn lemma_line_structure(s: Seq<char>, n: int)
    requires
        0 <= n <= nl_count(s),
    ensures
        0 <= line_start(s, n) <= next_nl(s, line_start(s, n)) <= s.len(),
        line_text_len(s, n) >= 0,
        forall|j: int|
            line_start(s, n) <= j < line_start(s, n) + line_text_len(s, n)
                ==> #[trigger] s[j] != '\n',
        n < nl_count(s) ==> next_nl(s, line_start(s, n)) < s.len()
            && s[line_start(s, n) + line_text_len(s, n)] == '\n'
            && line_start(s, n + 1) == line_start(s, n) + line_text_len(s, n) + 1
            && line_len(s, n) == line_text_len(s, n) + 1,
        n == nl_count(s) ==> line_start(s, n) + line_text_len(s, n) == s.len()
            && line_start(s, n + 1) == s.len()
            && line_len(s, n) == line_text_len(s, n),
{
    lemma_ls_count(s, n);
    let l = line_start(s, n);
    let p = next_nl(s, l);
    lemma_next_nl_props(s, l);
    lemma_nl_zero(s.subrange(l, p));
    assert(forall|j: int|
        0 <= j < p - l ==> #[trigger] s.subrange(l, p)[j] == s[l + j]);
    assert(nl_count(s.subrange(l, p)) == 0);
    lemma_nl_take_split(s, l, p);
    assert(nl_count(s.take(p)) == n);
    if p == s.len() {
        assert(s.take(s.len() as int) =~= s);
        assert(n == nl_count(s));
    } else {
        lemma_nl_take_split(s, p, p + 1);
        assert(s.subrange(p, p + 1) =~= seq![s[p]]);
        lemma_nl_singleton(s[p]);
        assert(nl_count(s.take(p + 1)) == n + 1);
        lemma_nl_take_mono(s, p + 1, s.len() as int);
        assert(s.take(s.len() as int) =~= s);
        assert(n < nl_count(s));
    }
}

pub proof fn lemma_insert_elems(s: Seq<char>, i: int, c: char)
    requires
        0 <= i <= s.len(),
    ensures
        insert_at(s, i, c).len() == s.len() + 1,
        insert_at(s, i, c)[i] == c,
        forall|k: int| 0 <= k < i ==> #[trigger] insert_at(s, i, c)[k] == s[k],
        forall|k: int| i < k <= s.len() ==> #[trigger] insert_at(s, i, c)[k] == s[k - 1],
{
}

pub proof fn lemma_insert_prefix_counts(s: Seq<char>, i: int, c: char, j: int)
    requires
        0 <= i <= s.len(),
        0 <= j <= s.len() + 1,
    ensures
        j <= i ==> nl_count(insert_at(s, i, c).take(j)) == nl_count(s.take(j)),
        j > i ==> nl_count(insert_at(s, i, c).take(j)) == nl_count(s.take(j - 1)) + (if c
            == '\n' {
            1nat
        } else {
            0nat
        }),
{
    let t = insert_at(s, i, c);
    lemma_insert_elems(s, i, c);
    if j <= i {
        assert(t.take(j) =~= s.take(j));
    } else {
        assert(t.take(j) =~= s.take(i) + seq![c] + s.subrange(i, j - 1));
        lemma_nl_concat(s.take(i) + seq![c], s.subrange(i, j - 1));
        lemma_nl_concat(s.take(i), seq![c]);
        lemma_nl_singleton(c);
        lemma_nl_take_split(s, i, j - 1);
        assert(s.take(j - 1) =~= s.take(i) + s.subrange(i, j - 1));
    }
}

pub proof fn lemma_insert_count(s: Seq<char>, i: int, c: char)
    requires
        0 <= i <= s.len(),
    ensures
        nl_count(insert_at(s, i, c)) == nl_count(s) + (if c == '\n' {
            1nat
        } else {
            0nat
        }),
{
    let t = insert_at(s, i, c);
    lemma_insert_prefix_counts(s, i, c, s.len() + 1int);
    assert(t.take(s.len() + 1int) =~= t);
    assert(s.take(s.len() as int) =~= s);
}

pub proof fn lemma_remove_elems(s: Seq<char>, p: int)
    requires
        0 <= p < s.len(),
    ensures
        remove_at(s, p).len() == s.len() - 1,
        forall|k: int| 0 <= k < p ==> #[trigger] remove_at(s, p)[k] == s[k],
        forall|k: int| p <= k < s.len() - 1 ==> #[trigger] remove_at(s, p)[k] == s[k + 1],
{
}

pub proof fn lemma_remove_prefix_counts(s: Seq<char>, p: int, j: int)
    requires
        0 <= p < s.len(),
        0 <= j <= s.len() - 1,
    ensures
        j <= p ==> nl_count(remove_at(s, p).take(j)) == nl_count(s.take(j)),
        j >= p ==> nl_count(remove_at(s, p).take(j)) + (if s[p] == '\n' {
            1nat
        } else {
            0nat
        }) == nl_count(s.take(j + 1)),
{
    let t = remove_at(s, p);
    lemma_remove_elems(s, p);
    if j <= p {
        assert(t.take(j) =~= s.take(j));
    }
    if j >= p {
        assert(t.take(j) =~= s.take(p) + s.subrange(p + 1, j + 1));
        lemma_nl_concat(s.take(p), s.subrange(p + 1, j + 1));
        lemma_nl_take_split(s, p, p + 1);
        assert(s.subrange(p, p + 1) =~= seq![s[p]]);
        lemma_nl_singleton(s[p]);
        lemma_nl_take_split(s, p + 1, j + 1);
    }
}

pub proof fn lemma_remove_count(s: Seq<char>, p: int)
    requires
        0 <= p < s.len(),
    ensures
        nl_count(remove_at(s, p)) + (if s[p] == '\n' {
            1nat
        } else {
            0nat
        }) == nl_count(s),
{
    let t = remove_at(s, p);
    lemma_remove_prefix_counts(s, p, s.len() - 1);
    assert(t.take(s.len() - 1) =~= t);
    assert(s.take(s.len() as int) =~= s);
}

/// Removing the character that was just inserted restores the sequence.
pub proof fn lemma_remove_insert(s: Seq<char>, i: int, c: char)
    requires
        0 <= i <= s.len(),
    ensures
        remove_at(insert_at(s, i, c), i) =~= s,
{
}

/// Inserting a plain character at offset `k` of line `n` leaves the line's
/// start in place, lengthens its text by one, and adds no line.
pub proof fn lemma_insert_in_line(s: Seq<char>, n: int, k: int, c: char)
    requires
        0 <= n <= nl_count(s),
        0 <= k <= line_text_len(s, n),
        c != '\n',
    ensures
        0 <= line_start(s, n) + k <= s.len(),
        nl_count(insert_at(s, line_start(s, n) + k, c)) == nl_count(s),
        line_start(insert_at(s, line_start(s, n) + k, c), n) == line_start(s, n),
        line_text_len(insert_at(s, line_start(s, n) + k, c), n) == line_text_len(s, n) + 1,
{
    let l = line_start(s, n);
    let ltl = line_text_len(s, n);
    let e = l + ltl;
    let i = l + k;
    let t = insert_at(s, i, c);
    lemma_line_structure(s, n);
    lemma_ls_count(s, n);
    lemma_insert_elems(s, i, c);
    lemma_insert_count(s, i, c);
    lemma_insert_prefix_counts(s, i, c, l);
    lemma_ls_unique(t, n, l);
    assert forall|j: int| l <= j < e + 1 implies #[trigger] t[j] != '\n' by {
        if j < i {
            assert(t[j] == s[j]);
        } else if j > i {
            assert(t[j] == s[j - 1]);
        }
    }
    if n < nl_count(s) {
        assert(t[e + 1] == s[e]);
    }
    lemma_next_nl_unique(t, l, e + 1);
}

/// Inserting a newline at offset `k` of line `n` splits it: line `n` keeps
/// the first `k` characters, line `n + 1` begins right after the new
/// terminator and holds the rest.
pub proof fn lemma_insert_newline(s: Seq<char>, n: int, k: int)
    requires
        0 <= n <= nl_count(s),
        0 <= k <= line_text_len(s, n),
    ensures
        0 <= line_start(s, n) + k <= s.len(),
        nl_count(insert_at(s, line_start(s, n) + k, '\n')) == nl_count(s) + 1,
        line_start(insert_at(s, line_start(s, n) + k, '\n'), n) == line_start(s, n),
        line_text_len(insert_at(s, line_start(s, n) + k, '\n'), n) == k,
        line_start(insert_at(s, line_start(s, n) + k, '\n'), n + 1) == line_start(s, n) + k
            + 1,
        line_text_len(insert_at(s, line_start(s, n) + k, '\n'), n + 1) == line_text_len(s, n)
            - k,
{
    let l = line_start(s, n);
    let ltl = line_text_len(s, n);
    let e = l + ltl;
    let i = l + k;
    let t = insert_at(s, i, '\n');
    lemma_line_structure(s, n);
    lemma_ls_count(s, n);
    lemma_insert_elems(s, i, '\n');
    lemma_insert_count(s, i, '\n');
    lemma_insert_prefix_counts(s, i, '\n', l);
    lemma_ls_unique(t, n, l);
    assert forall|j: int| l <= j < i implies #[trigger] t[j] != '\n' by {
        assert(t[j] == s[j]);
    }
    lemma_next_nl_unique(t, l, i);
    lemma_nl_take_split(s, l, i);
    lemma_nl_zero(s.subrange(l, i));
    assert(forall|j: int| 0 <= j < i - l ==> #[trigger] s.subrange(l, i)[j] == s[l + j]);
    assert(nl_count(s.subrange(l, i)) == 0);
    lemma_insert_prefix_counts(s, i, '\n', i + 1);
    assert(nl_count(t.take(i + 1)) == n + 1);
    lemma_ls_unique(t, n + 1, i + 1);
    assert forall|j: int| i + 1 <= j < e + 1 implies #[trigger] t[j] != '\n' by {
        assert(t[j] == s[j - 1]);
    }
    if n < nl_count(s) {
        assert(t[e + 1] == s[e]);
    }
    lemma_next_nl_unique(t, i + 1, e + 1);
}

/// Removing a character from within line `n`'s text leaves the line's start
/// in place, shortens its text by one, and removes no line.
pub proof fn lemma_remove_in_line(s: Seq<char>, n: int, k: int)
    requires
        0 <= n <= nl_count(s),
        0 <= k < line_text_len(s, n),
    ensures
        0 <= line_start(s, n) + k < s.len(),
        s[line_start(s, n) + k] != '\n',
        nl_count(remove_at(s, line_start(s, n) + k)) == nl_count(s),
        line_start(remove_at(s, line_start(s, n) + k), n) == line_start(s, n),
        line_text_len(remove_at(s, line_start(s, n) + k), n) == line_text_len(s, n) - 1,
{
    let l = line_start(s, n);
    let ltl = line_text_len(s, n);
    let e = l + ltl;
    let p = l + k;
    let t = remove_at(s, p);
    lemma_line_structure(s, n);
    lemma_ls_count(s, n);
    lemma_remove_elems(s, p);
    lemma_remove_count(s, p);
    lemma_remove_prefix_counts(s, p, l);
    lemma_ls_unique(t, n, l);
    assert forall|j: int| l <= j < e - 1 implies #[trigger] t[j] != '\n' by {
        if j < p {
            assert(t[j] == s[j]);
        } else {
            assert(t[j] == s[j + 1]);
        }
    }
    if n < nl_count(s) {
        assert(t[e - 1] == s[e]);
    }
    lemma_next_nl_unique(t, l, e - 1);
}

/// Removing line `n`'s terminating newline joins lines `n` and `n + 1`:
/// the joined line starts where line `n` did and its text is the two texts
/// set end to end.
pub proof fn lemma_remove_terminator(s: Seq<char>, n: int)
    requires
        0 <= n < nl_count(s),
    ensures
        0 <= line_start(s, n) + line_text_len(s, n) < s.len(),
        s[line_start(s, n) + line_text_len(s, n)] == '\n',
        line_start(s, n + 1) == line_start(s, n) + line_text_len(s, n) + 1,
        nl_count(remove_at(s, line_start(s, n) + line_text_len(s, n))) == nl_count(s) - 1,
        line_start(remove_at(s, line_start(s, n) + line_text_len(s, n)), n) == line_start(
            s,
            n,
        ),
        line_text_len(remove_at(s, line_start(s, n) + line_text_len(s, n)), n)
            == line_text_len(s, n) + line_text_len(s, n + 1),
{
    let l = line_start(s, n);
    let ltl = line_text_len(s, n);
    let p = l + ltl;
    let ltl2 = line_text_len(s, n + 1);
    let e2 = p + 1 + ltl2;
    let t = remove_at(s, p);
    lemma_line_structure(s, n);
    lemma_line_structure(s, n + 1);
    lemma_ls_count(s, n);
    lemma_remove_elems(s, p);
    lemma_remove_count(s, p);
    lemma_remove_prefix_counts(s, p, l);
    lemma_ls_unique(t, n, l);
    assert forall|j: int| l <= j < e2 - 1 implies #[trigger] t[j] != '\n' by {
        if j < p {
            assert(t[j] == s[j]);
        } else {
            assert(t[j] == s[j + 1]);
        }
    }
    if n + 1 < nl_count(s) {
        assert(t[e2 - 1] == s[e2]);
    }
    lemma_next_nl_unique(t, l, e2 - 1);
}

} // verus!
