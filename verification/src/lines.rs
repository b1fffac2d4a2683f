//! Splitting a file's content into lines.
//!
//! A line boundary is a newline character; every line keeps its terminating
//! newline, and a final unterminated line is still a line. Concatenating the
//! lines therefore gives the content back unchanged, which is what lets the
//! scanner emit lines verbatim.

use vstd::prelude::*;
use vstd::string::*;

verus! {

/// The views of a sequence of owned strings.
pub open spec fn seq_views(ss: Seq<String>) -> Seq<Seq<char>> {
    ss.map_values(|s: String| s@)
}

/// Index of the first newline in `s`, or `s.len()` when there is none.
pub open spec fn first_newline(s: Seq<char>) -> int
    decreases s.len(),
{
    if s.len() == 0 {
        0
    } else if s[0] == '\n' {
        0
    } else {
        1 + first_newline(s.drop_first())
    }
}

pub proof fn lemma_first_newline(s: Seq<char>)
    ensures
        0 <= first_newline(s) <= s.len(),
        forall|k: int| 0 <= k < first_newline(s) ==> s[k] != '\n',
        first_newline(s) < s.len() ==> s[first_newline(s)] == '\n',
    decreases s.len(),
{
    if s.len() > 0 && s[0] != '\n' {
        lemma_first_newline(s.drop_first());
        assert forall|k: int| 0 <= k < first_newline(s) implies s[k] != '\n' by {
            if k > 0 {
                assert(s.drop_first()[k - 1] != '\n');
            }
        }
    }
}

/// The lines of `s`, each keeping its terminating newline; a final
/// unterminated line is still a line.
pub open spec fn spec_lines(s: Seq<char>) -> Seq<Seq<char>>
    decreases s.len(),
    via spec_lines_decreases
{
    if s.len() == 0 {
        Seq::empty()
    } else {
        let e = first_newline(s);
        if e < s.len() {
            seq![s.take(e + 1)] + spec_lines(s.skip(e + 1))
        } else {
            seq![s]
        }
    }
}

#[via_fn]
proof fn spec_lines_decreases(s: Seq<char>) {
    lemma_first_newline(s);
}

/// A text that is empty or newline-terminated: exactly the texts whose every
/// line carries its newline.
pub open spec fn terminated(s: Seq<char>) -> bool {
    s.len() == 0 || s.last() == '\n'
}

proof fn lemma_first_newline_concat(a: Seq<char>, b: Seq<char>)
    ensures
        first_newline(a) < a.len() ==> first_newline(a + b) == first_newline(a),
        first_newline(a) == a.len() && b.len() > 0 ==> first_newline(a + b) == a.len()
            + first_newline(b),
    decreases a.len(),
{
    lemma_first_newline(a);
    if a.len() == 0 {
        assert(a + b =~= b);
    } else if a[0] != '\n' {
        lemma_first_newline_concat(a.drop_first(), b);
        assert((a + b).drop_first() =~= a.drop_first() + b);
    }
}

/// Appending one whole line (newline-terminated or final-unterminated, with
/// no earlier newline) to a terminated text appends one line to its split.
proof fn lemma_lines_push(t: Seq<char>, line: Seq<char>)
    requires
        terminated(t),
        line.len() > 0,
        forall|k: int| 0 <= k < line.len() - 1 ==> line[k] != '\n',
    ensures
        spec_lines(t + line) == spec_lines(t).push(line),
    decreases t.len(),
{
    lemma_first_newline(t);
    lemma_first_newline(line);
    lemma_first_newline_concat(t, line);
    if t.len() == 0 {
        assert(t + line =~= line);
        let e = first_newline(line);
        assert(e >= line.len() - 1);
        if line.last() == '\n' {
            assert(e == line.len() - 1);
            assert(line.take(e + 1) =~= line);
            assert(line.skip(e + 1) =~= Seq::<char>::empty());
            assert(spec_lines(line.skip(e + 1)) =~= Seq::<Seq<char>>::empty());
            assert(spec_lines(line) == seq![line] + Seq::<Seq<char>>::empty());
            assert(seq![line] + Seq::<Seq<char>>::empty() =~= Seq::<Seq<char>>::empty().push(
                line,
            ));
        } else {
            assert(e == line.len()) by {
                if e < line.len() {
                    assert(line[e] == '\n');
                }
            }
            assert(spec_lines(line) == seq![line]);
            assert(seq![line] =~= Seq::<Seq<char>>::empty().push(line));
        }
        assert(spec_lines(t) =~= Seq::<Seq<char>>::empty());
    } else {
        let e = first_newline(t);
        assert(e < t.len()) by {
            if e == t.len() {
                assert(t.last() != '\n');
            }
        }
        assert(first_newline(t + line) == e);
        assert((t + line).take(e + 1) =~= t.take(e + 1));
        assert((t + line).skip(e + 1) =~= t.skip(e + 1) + line);
        let rest = t.skip(e + 1);
        assert(terminated(rest)) by {
            if rest.len() > 0 {
                assert(rest.last() == t.last());
            }
        }
        lemma_lines_push(rest, line);
        assert(seq![t.take(e + 1)] + spec_lines(rest).push(line) =~= (seq![t.take(e + 1)]
            + spec_lines(rest)).push(line));
        assert(spec_lines(t) == seq![t.take(e + 1)] + spec_lines(rest));
    }
}

/// Splits `s` into its lines. Each line keeps its newline; a final
/// unterminated line is handed back without one.
pub fn split_lines(s: &str) -> (r: Vec<String>)
    ensures
        seq_views(r@) == spec_lines(s@),
{
    let n = s.unicode_len();
    let mut r: Vec<String> = Vec::new();
    let mut start: usize = 0;
    let mut i: usize = 0;
    while i < n
        invariant
            start <= i <= n,
            n == s@.len(),
            terminated(s@.take(start as int)),
            seq_views(r@) == spec_lines(s@.take(start as int)),
            forall|k: int| start <= k < i ==> s@[k] != '\n',
        decreases n - i,
    {
        let c = s.get_char(i);
        if c == '\n' {
            let line = s.substring_char(start, i + 1);
            r.push(String::from_str(line));
            proof {
                let prev = s@.take(start as int);
                let piece = s@.subrange(start as int, i + 1);
                lemma_lines_push(prev, piece);
                assert(prev + piece =~= s@.take(i + 1));
                assert(seq_views(r@) =~= spec_lines(s@.take(start as int)).push(piece));
            }
            start = i + 1;
        }
        i += 1;
    }
    if start < n {
        let line = s.substring_char(start, n);
        r.push(String::from_str(line));
        proof {
            let prev = s@.take(start as int);
            let piece = s@.subrange(start as int, n as int);
            lemma_lines_push(prev, piece);
            assert(prev + piece =~= s@.take(n as int));
            assert(seq_views(r@) =~= spec_lines(s@.take(start as int)).push(piece));
        }
    }
    proof {
        assert(s@.take(n as int) =~= s@);
    }
    r
}

/// The concatenation of a sequence of lines.
pub open spec fn concat_lines(ls: Seq<Seq<char>>) -> Seq<char>
    decreases ls.len(),
{
    if ls.len() == 0 {
        Seq::empty()
    } else {
        concat_lines(ls.drop_last()) + ls.last()
    }
}

proof fn lemma_concat_prepend(x: Seq<char>, ys: Seq<Seq<char>>)
    ensures
        concat_lines(seq![x] + ys) == x + concat_lines(ys),
    decreases ys.len(),
{
    if ys.len() == 0 {
        assert(seq![x] + ys =~= seq![x]);
        assert(seq![x].drop_last() =~= Seq::<Seq<char>>::empty());
        assert(concat_lines(seq![x]) == concat_lines(Seq::<Seq<char>>::empty()) + x);
        assert(Seq::<char>::empty() + x =~= x);
        assert(x + concat_lines(ys) =~= x);
    } else {
        assert((seq![x] + ys).drop_last() =~= seq![x] + ys.drop_last());
        lemma_concat_prepend(x, ys.drop_last());
        assert(x + concat_lines(ys.drop_last()) + ys.last() =~= x + (concat_lines(ys.drop_last())
            + ys.last()));
    }
}

/// Splitting loses nothing: the lines of `s`, concatenated, are `s` again.
/// This is what makes per-line output verbatim.
pub proof fn lemma_lines_lossless(s: Seq<char>)
    ensures
        concat_lines(spec_lines(s)) == s,
    decreases s.len(),
{
    lemma_first_newline(s);
    if s.len() == 0 {
        assert(concat_lines(spec_lines(s)) =~= s);
    } else {
        let e = first_newline(s);
        if e < s.len() {
            lemma_lines_lossless(s.skip(e + 1));
            lemma_concat_prepend(s.take(e + 1), spec_lines(s.skip(e + 1)));
            assert(s.take(e + 1) + s.skip(e + 1) =~= s);
        } else {
            assert(spec_lines(s) == seq![s]);
            assert(seq![s].drop_last() =~= Seq::<Seq<char>>::empty());
            assert(concat_lines(seq![s]) == concat_lines(Seq::<Seq<char>>::empty()) + s);
            assert(Seq::<char>::empty() + s =~= s);
        }
    }
}

} // verus!
