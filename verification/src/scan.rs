//! The line scanner: applies the matcher to every line of one file and
//! produces both the lines to emit and the two counters.
//!
//! A matching line always raises `match_count`; a non-matching line raises
//! `invert_count` when invert accounting is on. In per-line mode the scanner
//! emits the matching lines — or, under invert accounting, exactly the
//! non-matching ones, with matching output suppressed entirely — and in
//! count-only mode it emits nothing. Which counter is printed is the
//! formatter's affair: the scanner always keeps both apart, never their sum.

use vstd::prelude::*;
use crate::lines::seq_views;
use crate::matcher::Matcher;
use crate::matcher::regex_match;

verus! {

/// Whether the scanner emits `line` in per-line mode: the matching lines, or
/// under invert accounting exactly the non-matching ones — inverting selects
/// non-matching lines, it never adds to the matching output.
pub open spec fn spec_emits(pattern: Seq<char>, ci: bool, invert: bool, line: Seq<char>) -> bool {
    if invert {
        !regex_match(pattern, ci, line)
    } else {
        regex_match(pattern, ci, line)
    }
}

/// The lines of `lines` that the matcher matches, in order.
pub open spec fn spec_matching_lines(pattern: Seq<char>, ci: bool, lines: Seq<Seq<char>>) -> Seq<
    Seq<char>,
> {
    lines.filter(|l: Seq<char>| regex_match(pattern, ci, l))
}

/// The number of lines the matcher matches.
pub open spec fn spec_match_count(pattern: Seq<char>, ci: bool, lines: Seq<Seq<char>>) -> nat {
    spec_matching_lines(pattern, ci, lines).len()
}

/// The number of lines the matcher does not match.
pub open spec fn spec_nonmatch_count(pattern: Seq<char>, ci: bool, lines: Seq<Seq<char>>) -> nat {
    lines.filter(|l: Seq<char>| !regex_match(pattern, ci, l)).len()
}

/// The lines emitted in per-line mode, in input order.
pub open spec fn spec_emitted_lines(
    pattern: Seq<char>,
    ci: bool,
    invert: bool,
    lines: Seq<Seq<char>>,
) -> Seq<Seq<char>> {
    lines.filter(|l: Seq<char>| spec_emits(pattern, ci, invert, l))
}

/// The one count that count-only mode prints for a file: the invert count
/// under invert accounting, the match count otherwise — never their sum.
pub open spec fn spec_printed_count(
    pattern: Seq<char>,
    ci: bool,
    invert: bool,
    lines: Seq<Seq<char>>,
) -> nat {
    if invert {
        spec_nonmatch_count(pattern, ci, lines)
    } else {
        spec_match_count(pattern, ci, lines)
    }
}

/// How one more line moves the counters and the emitted lines.
proof fn lemma_scan_step(p: Seq<char>, ci: bool, invert: bool, prev: Seq<Seq<char>>, line: Seq<char>)
    ensures
        spec_match_count(p, ci, prev.push(line)) == spec_match_count(p, ci, prev) + if regex_match(
            p,
            ci,
            line,
        ) {
            1nat
        } else {
            0nat
        },
        spec_nonmatch_count(p, ci, prev.push(line)) == spec_nonmatch_count(p, ci, prev)
            + if !regex_match(p, ci, line) {
            1nat
        } else {
            0nat
        },
        spec_emitted_lines(p, ci, invert, prev.push(line)) == if spec_emits(p, ci, invert, line) {
            spec_emitted_lines(p, ci, invert, prev).push(line)
        } else {
            spec_emitted_lines(p, ci, invert, prev)
        },
{
    reveal(Seq::filter);
    let cur = prev.push(line);
    assert(cur.drop_last() =~= prev);
    assert(cur.last() == line);
}

/// What scanning one file produced: the lines to emit (none in count-only
/// mode) and the two counters, kept apart. Created fresh per file.
pub struct ScanOutcome {
    pub emitted: Vec<String>,
    pub match_count: usize,
    pub invert_count: usize,
}

/// Scans the lines of one file. Both counters are always computed —
/// `match_count` regardless of the modes, `invert_count` whenever invert
/// accounting is on — and per-line mode emits verbatim the matching lines,
/// or under invert accounting exactly the non-matching ones.
pub fn scan_lines(m: &Matcher, lines: &Vec<String>, invert: bool, count_only: bool) -> (r:
    ScanOutcome)
    ensures
        r.match_count == spec_match_count(
            m.spec_pattern(),
            m.spec_case_insensitive(),
            seq_views(lines@),
        ),
        r.invert_count == if invert {
            spec_nonmatch_count(m.spec_pattern(), m.spec_case_insensitive(), seq_views(lines@))
        } else {
            0nat
        },
        seq_views(r.emitted@) == if count_only {
            Seq::<Seq<char>>::empty()
        } else {
            spec_emitted_lines(
                m.spec_pattern(),
                m.spec_case_insensitive(),
                invert,
                seq_views(lines@),
            )
        },
{
    let ghost p = m.spec_pattern();
    let ghost ci = m.spec_case_insensitive();
    let mut emitted: Vec<String> = Vec::new();
    let mut match_count: usize = 0;
    let mut invert_count: usize = 0;
    let mut i: usize = 0;
    while i < lines.len()
        invariant
            i <= lines.len(),
            p == m.spec_pattern(),
            ci == m.spec_case_insensitive(),
            match_count <= i,
            invert_count <= i,
            match_count == spec_match_count(p, ci, seq_views(lines@.take(i as int))),
            invert_count == if invert {
                spec_nonmatch_count(p, ci, seq_views(lines@.take(i as int)))
            } else {
                0nat
            },
            seq_views(emitted@) == if count_only {
                Seq::<Seq<char>>::empty()
            } else {
                spec_emitted_lines(p, ci, invert, seq_views(lines@.take(i as int)))
            },
        decreases lines.len() - i,
    {
        let line = &lines[i];
        let hit = m.matches(line.as_str());
        proof {
            let prev = seq_views(lines@.take(i as int));
            let cur = seq_views(lines@.take(i + 1));
            assert(cur =~= prev.push(lines@[i as int]@));
            lemma_scan_step(p, ci, invert, prev, lines@[i as int]@);
        }
        if hit {
            match_count += 1;
            if !count_only && !invert {
                emitted.push(line.clone());
            }
        } else if invert {
            invert_count += 1;
            if !count_only {
                emitted.push(line.clone());
            }
        }
        proof {
            if !count_only {
                let prev = seq_views(lines@.take(i as int));
                assert(seq_views(emitted@) =~= if spec_emits(p, ci, invert, lines@[i as int]@) {
                    spec_emitted_lines(p, ci, invert, prev).push(lines@[i as int]@)
                } else {
                    spec_emitted_lines(p, ci, invert, prev)
                });
            }
        }
        i += 1;
    }
    proof {
        assert(lines@.take(lines@.len() as int) =~= lines@);
    }
    ScanOutcome { emitted, match_count, invert_count }
}

/// In plain mode — no invert accounting, per-line output — a line of the
/// input stands among the emitted lines exactly when the matcher matches it.
pub proof fn lemma_emitted_iff_match(p: Seq<char>, ci: bool, lines: Seq<Seq<char>>, i: int)
    requires
        0 <= i < lines.len(),
    ensures
        regex_match(p, ci, lines[i]) <==> spec_emitted_lines(p, ci, false, lines).contains(
            lines[i],
        ),
{
    let pred = |l: Seq<char>| spec_emits(p, ci, false, l);
    if regex_match(p, ci, lines[i]) {
        lines.lemma_filter_contains(pred, i);
    }
    if spec_emitted_lines(p, ci, false, lines).contains(lines[i]) {
        let j = choose|j: int|
            0 <= j < lines.filter(pred).len() && lines.filter(pred)[j] == lines[i];
        lines.lemma_filter_pred(pred, j);
    }
}

/// Under invert accounting, per-line output holds a line of the input exactly
/// when the matcher does not match it: inverting replaces the selection with
/// the non-matching lines, it never adds to the matching output.
pub proof fn lemma_inverted_emission_iff_nonmatch(
    p: Seq<char>,
    ci: bool,
    lines: Seq<Seq<char>>,
    i: int,
)
    requires
        0 <= i < lines.len(),
    ensures
        !regex_match(p, ci, lines[i]) <==> spec_emitted_lines(p, ci, true, lines).contains(
            lines[i],
        ),
{
    let pred = |l: Seq<char>| spec_emits(p, ci, true, l);
    if !regex_match(p, ci, lines[i]) {
        lines.lemma_filter_contains(pred, i);
    }
    if spec_emitted_lines(p, ci, true, lines).contains(lines[i]) {
        let j = choose|j: int|
            0 <= j < lines.filter(pred).len() && lines.filter(pred)[j] == lines[i];
        lines.lemma_filter_pred(pred, j);
    }
}

/// Under invert accounting the printed count is the number of non-matching
/// lines, never the number of matching ones; together the two counters cover
/// every line exactly once.
pub proof fn lemma_invert_count_is_nonmatching(p: Seq<char>, ci: bool, lines: Seq<Seq<char>>)
    ensures
        spec_printed_count(p, ci, true, lines) == spec_nonmatch_count(p, ci, lines),
        spec_match_count(p, ci, lines) + spec_nonmatch_count(p, ci, lines) == lines.len(),
    decreases lines.len(),
{
    if lines.len() > 0 {
        lemma_invert_count_is_nonmatching(p, ci, lines.drop_last());
        lemma_scan_step(p, ci, true, lines.drop_last(), lines.last());
        assert(lines.drop_last().push(lines.last()) =~= lines);
    }
}

} // verus!
