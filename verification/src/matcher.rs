//! The matcher: a compiled pattern plus a case-sensitivity setting, built once
//! per run and immutable afterwards, answering "does this line match".
//!
//! Compilation and matching are done by the `regex` crate; both are
//! deterministic functions of the pattern text, the case-insensitivity flag
//! and the line, which the two uninterpreted names below stand for.

use vstd::prelude::*;

verus! {

#[verifier::external_type_specification]
#[verifier::external_body]
pub struct ExRegex(regex::Regex);

/// Whether the pattern engine accepts `pattern` when compiled with the given
/// case-insensitivity. Stands for the success of `regex::RegexBuilder::build`,
/// which depends on its inputs alone.
pub uninterp spec fn pattern_ok(pattern: Seq<char>, case_insensitive: bool) -> bool;

/// Whether the pattern, compiled with the given case-insensitivity, matches
/// anywhere in `line`. Stands for the result of `regex::Regex::is_match`,
/// which depends on its inputs alone.
pub uninterp spec fn regex_match(pattern: Seq<char>, case_insensitive: bool, line: Seq<char>) -> bool;

/// A compiled pattern together with its case-sensitivity setting. Read-only
/// after construction; the one value a run shares across all its targets.
pub struct Matcher {
    re: regex::Regex,
    pattern: String,
    case_insensitive: bool,
}

/// The fatal error of a pattern that does not compile. It aborts the whole
/// run before any target is opened.
#[derive(Debug)]
pub struct InvalidPattern {
    pub message: String,
}

impl Matcher {
    /// The pattern text this matcher was built from.
    pub closed spec fn spec_pattern(&self) -> Seq<char> {
        self.pattern@
    }

    /// Whether this matcher ignores case distinctions.
    pub closed spec fn spec_case_insensitive(&self) -> bool {
        self.case_insensitive
    }

    /// What [`Matcher::matches`] answers for a line.
    pub open spec fn spec_matches(&self, line: Seq<char>) -> bool {
        regex_match(self.spec_pattern(), self.spec_case_insensitive(), line)
    }

    /// Builds the one matcher of a run. Succeeds exactly on the patterns the
    /// engine accepts; a rejected pattern is fatal before any file is opened.
    pub fn build(pattern: &str, case_insensitive: bool) -> (r: Result<Matcher, InvalidPattern>)
        ensures
            r is Ok <==> pattern_ok(pattern@, case_insensitive),
            r is Ok ==> r->Ok_0.spec_pattern() == pattern@
                && r->Ok_0.spec_case_insensitive() == case_insensitive,
    {
        match compile(pattern, case_insensitive) {
            Ok(m) => Ok(m),
            Err(message) => Err(InvalidPattern { message }),
        }
    }

    /// Relies on `regex::Regex::is_match`: whether the compiled pattern
    /// matches anywhere in the line, a function of the pattern text, the
    /// case-insensitivity it was compiled with, and the line alone.
    #[verifier::external_body]
    pub fn matches(&self, line: &str) -> (r: bool)
        ensures
            r == regex_match(self.spec_pattern(), self.spec_case_insensitive(), line@),
    {
        self.re.is_match(line)
    }
}

/// Relies on `regex::RegexBuilder::build`: compiling succeeds exactly when
/// the engine accepts the pattern text under the given case-insensitivity,
/// and the compiled matcher keeps both.
#[verifier::external_body]
fn compile(pattern: &str, case_insensitive: bool) -> (r: Result<Matcher, String>)
    ensures
        r is Ok <==> pattern_ok(pattern@, case_insensitive),
        r is Ok ==> r->Ok_0.spec_pattern() == pattern@
            && r->Ok_0.spec_case_insensitive() == case_insensitive,
{
    let built = regex::RegexBuilder::new(pattern).case_insensitive(case_insensitive).build();
    match built {
        Ok(re) => Ok(Matcher { re, pattern: pattern.to_string(), case_insensitive }),
        Err(e) => Err(format!("{}", e)),
    }
}

} // verus!
