//! The head-like companion utility: its configuration and the parser for its
//! numeric flags.
//!
//! A line or byte count given on the command line must be a positive integer;
//! anything else is handed back as the error, word for word.

use vstd::prelude::*;
use vstd::string::*;

verus! {

/// The resolved configuration of one head-like run.
#[derive(Debug)]
pub struct Config {
    pub files: Vec<String>,
    pub lines: usize,
    pub bytes: Option<usize>,
}

/// Whether `c` is a decimal digit.
pub open spec fn spec_is_digit(c: char) -> bool {
    ('0' as int) <= (c as int) <= ('9' as int)
}

/// The value of the digit `c`.
pub open spec fn spec_digit_val(c: char) -> int {
    (c as int) - ('0' as int)
}

/// The value of an all-digit string, most significant digit first.
pub open spec fn spec_digits_val(s: Seq<char>) -> int
    decreases s.len(),
{
    if s.len() == 0 {
        0
    } else {
        spec_digits_val(s.drop_last()) * 10 + spec_digit_val(s.last())
    }
}

/// Whether every character of `s` is a decimal digit.
pub open spec fn spec_all_digits(s: Seq<char>) -> bool {
    forall|i: int| 0 <= i < s.len() ==> spec_is_digit(s[i])
}

/// The digits of a numeral: an integer literal may carry one leading plus
/// sign, which does not change its value.
pub open spec fn spec_digit_part(s: Seq<char>) -> Seq<char> {
    if s.len() > 0 && s[0] == '+' {
        s.drop_first()
    } else {
        s
    }
}

/// Whether `s` is a well-formed unsigned numeral that fits the machine:
/// an optional plus sign, then at least one digit, value within range.
pub open spec fn spec_parses_as_usize(s: Seq<char>) -> bool {
    let d = spec_digit_part(s);
    d.len() > 0 && spec_all_digits(d) && spec_digits_val(d) <= usize::MAX
}

proof fn lemma_digits_val_nonneg(s: Seq<char>)
    requires
        spec_all_digits(s),
    ensures
        spec_digits_val(s) >= 0,
    decreases s.len(),
{
    if s.len() > 0 {
        assert(spec_all_digits(s.drop_last()));
        lemma_digits_val_nonneg(s.drop_last());
    }
}

/// A longer all-digit string never has a smaller value than its prefix.
proof fn lemma_digits_val_mono(s: Seq<char>, k: int)
    requires
        0 <= k <= s.len(),
        spec_all_digits(s),
    ensures
        spec_digits_val(s) >= spec_digits_val(s.take(k)),
    decreases s.len() - k,
{
    if k < s.len() {
        assert(spec_all_digits(s.take(k)));
        lemma_digits_val_nonneg(s.take(k));
        assert(s.take(k + 1).drop_last() =~= s.take(k));
        assert(spec_digits_val(s.take(k + 1)) == spec_digits_val(s.take(k)) * 10 + spec_digit_val(
            s[k],
        ));
        lemma_digits_val_mono(s, k + 1);
    } else {
        assert(s.take(k) =~= s);
    }
}

/// Parses a positive integer, as the numeric flags demand: an optional plus
/// sign, then digits, a value within range and above zero. Anything else is
/// handed back as the error, word for word.
pub fn parse_positive_int(val: &str) -> (r: Result<usize, String>)
    ensures
        r is Ok <==> spec_parses_as_usize(val@) && spec_digits_val(spec_digit_part(val@)) > 0,
        r is Ok ==> r->Ok_0 == spec_digits_val(spec_digit_part(val@)),
        r is Err ==> r->Err_0@ == val@,
{
    let n = val.unicode_len();
    let mut start: usize = 0;
    if n > 0 && val.get_char(0) == '+' {
        start = 1;
    }
    let ghost d = spec_digit_part(val@);
    proof {
        assert(d =~= val@.skip(start as int));
    }
    if start == n {
        return Err(String::from_str(val));
    }
    let mut acc: usize = 0;
    let mut i: usize = start;
    while i < n
        invariant
            start <= i <= n,
            n == val@.len(),
            start < n,
            d == spec_digit_part(val@),
            d == val@.skip(start as int),
            spec_all_digits(val@.subrange(start as int, i as int)),
            acc == spec_digits_val(val@.subrange(start as int, i as int)),
        decreases n - i,
    {
        let c = val.get_char(i);
        let u = c as u32;
        if u < 48 || u > 57 {
            proof {
                assert(!spec_is_digit(val@[i as int]));
                assert(d[i - start] == val@[i as int]);
                assert(!spec_all_digits(d)) by {
                    if spec_all_digits(d) {
                        assert(spec_is_digit(d[i - start]));
                    }
                }
            }
            return Err(String::from_str(val));
        }
        let dig = (u - 48) as usize;
        let wide: u128 = (acc as u128) * 10 + (dig as u128);
        proof {
            let prev = val@.subrange(start as int, i as int);
            let cur = val@.subrange(start as int, i + 1);
            assert(cur.drop_last() =~= prev);
            assert(cur.last() == val@[i as int]);
            assert(wide == spec_digits_val(cur));
        }
        if wide > (usize::MAX as u128) {
            proof {
                if spec_all_digits(d) {
                    lemma_digits_val_mono(d, i + 1 - start);
                    assert(d.take(i + 1 - start) =~= val@.subrange(start as int, i + 1));
                    assert(spec_digits_val(d) >= spec_digits_val(
                        val@.subrange(start as int, i + 1),
                    ));
                    assert(spec_digits_val(d) > usize::MAX);
                }
                assert(!spec_parses_as_usize(val@));
            }
            return Err(String::from_str(val));
        }
        acc = wide as usize;
        i += 1;
    }
    proof {
        assert(val@.subrange(start as int, n as int) =~= d);
    }
    if acc == 0 {
        return Err(String::from_str(val));
    }
    Ok(acc)
}

} // verus!
