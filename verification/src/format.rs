//! The output formatter: per-line output is each emitted line verbatim, with
//! no filename prefix; count-only mode prints exactly one `path:count` line
//! per file; a failed target gets one `path: reason` line on the error stream.

use vstd::prelude::*;
use vstd::string::*;
use crate::lines::concat_lines;
use crate::lines::seq_views;

verus! {

/// The decimal digit character for `d`.
pub open spec fn spec_digit_char(d: nat) -> char {
    if d == 0 {
        '0'
    } else if d == 1 {
        '1'
    } else if d == 2 {
        '2'
    } else if d == 3 {
        '3'
    } else if d == 4 {
        '4'
    } else if d == 5 {
        '5'
    } else if d == 6 {
        '6'
    } else if d == 7 {
        '7'
    } else if d == 8 {
        '8'
    } else {
        '9'
    }
}

/// The decimal rendering of `n`, most significant digit first, no sign and no
/// leading zero (except for zero itself).
pub open spec fn spec_decimal(n: nat) -> Seq<char>
    decreases n,
{
    if n < 10 {
        seq![spec_digit_char(n)]
    } else {
        spec_decimal(n / 10) + seq![spec_digit_char(n % 10)]
    }
}

fn digit_str(d: usize) -> (r: &'static str)
    requires
        d < 10,
    ensures
        r@ == seq![spec_digit_char(d as nat)],
{
    proof {
        reveal_strlit("0");
        reveal_strlit("1");
        reveal_strlit("2");
        reveal_strlit("3");
        reveal_strlit("4");
        reveal_strlit("5");
        reveal_strlit("6");
        reveal_strlit("7");
        reveal_strlit("8");
        reveal_strlit("9");
    }
    let r: &'static str = match d {
        0 => "0",
        1 => "1",
        2 => "2",
        3 => "3",
        4 => "4",
        5 => "5",
        6 => "6",
        7 => "7",
        8 => "8",
        _ => "9",
    };
    proof {
        assert(r@ =~= seq![spec_digit_char(d as nat)]);
    }
    r
}

/// Renders `n` in decimal.
pub fn format_count(n: usize) -> (r: String)
    ensures
        r@ == spec_decimal(n as nat),
    decreases n,
{
    if n < 10 {
        String::from_str(digit_str(n))
    } else {
        let mut r = format_count(n / 10);
        r.append(digit_str(n % 10));
        r
    }
}

/// The one line count-only mode prints for a file: `label:count`.
pub open spec fn spec_count_line(label: Seq<char>, n: nat) -> Seq<char> {
    label + seq![':'] + spec_decimal(n) + seq!['\n']
}

/// Renders the `label:count` summary line, newline-terminated.
pub fn format_count_line(label: &str, n: usize) -> (r: String)
    ensures
        r@ == spec_count_line(label@, n as nat),
{
    let mut r = String::from_str(label);
    r.append(":");
    let num = format_count(n);
    r.append(num.as_str());
    r.append("\n");
    proof {
        reveal_strlit(":");
        reveal_strlit("\n");
        assert(r@ =~= spec_count_line(label@, n as nat));
    }
    r
}

/// The one line a failed target gets on the error stream: `label: reason`.
pub open spec fn spec_error_line(label: Seq<char>, reason: Seq<char>) -> Seq<char> {
    label + seq![':', ' '] + reason + seq!['\n']
}

/// Renders the `label: reason` error line, newline-terminated.
pub fn format_error_line(label: &str, reason: &str) -> (r: String)
    ensures
        r@ == spec_error_line(label@, reason@),
{
    let mut r = String::from_str(label);
    r.append(": ");
    r.append(reason);
    r.append("\n");
    proof {
        reveal_strlit(": ");
        reveal_strlit("\n");
        assert(r@ =~= spec_error_line(label@, reason@));
    }
    r
}

/// Joins the emitted lines of one file into the text to print, verbatim and
/// in order.
pub fn concat_emitted(emitted: &Vec<String>) -> (r: String)
    ensures
        r@ == concat_lines(seq_views(emitted@)),
{
    let mut r = String::new();
    let mut i: usize = 0;
    while i < emitted.len()
        invariant
            i <= emitted.len(),
            r@ == concat_lines(seq_views(emitted@.take(i as int))),
        decreases emitted.len() - i,
    {
        r.append(emitted[i].as_str());
        proof {
            let prev = seq_views(emitted@.take(i as int));
            let cur = seq_views(emitted@.take(i + 1));
            assert(cur.drop_last() =~= prev);
            assert(cur.last() == emitted@[i as int]@);
        }
        i += 1;
    }
    proof {
        assert(emitted@.take(emitted@.len() as int) =~= emitted@);
    }
    r
}

} // verus!
