//! The run coordinator: sequences a whole multi-target run over already-read
//! data and keeps per-target failures apart.
//!
//! Reading happens at the edge: the caller resolves each target (see
//! [`crate::traverse::resolve`]), reads each resolved file whole, and hands
//! everything here as plain values. A file whose read failed contributes no
//! output at all — its partial text is discarded, never flushed — only its
//! error line. One bad target never hides the results of the others, and
//! nothing leaks from one target into the next.

use vstd::prelude::*;
use vstd::string::*;
use crate::format::concat_emitted;
use crate::format::format_count_line;
use crate::format::format_error_line;
use crate::format::spec_count_line;
use crate::format::spec_error_line;
use crate::lines::concat_lines;
use crate::lines::spec_lines;
use crate::lines::split_lines;
use crate::matcher::Matcher;
use crate::scan::ScanOutcome;
use crate::scan::scan_lines;
use crate::scan::spec_emitted_lines;
use crate::scan::spec_printed_count;
use crate::traverse::ResolveError;
use crate::traverse::spec_resolve_reason;

verus! {

/// What one file prints on standard output: its emitted lines verbatim, or
/// its one `label:count` line in count-only mode.
pub open spec fn spec_file_output(
    p: Seq<char>,
    ci: bool,
    invert: bool,
    count_only: bool,
    label: Seq<char>,
    content: Seq<char>,
) -> Seq<char> {
    let ls = spec_lines(content);
    if count_only {
        spec_count_line(label, spec_printed_count(p, ci, invert, ls))
    } else {
        concat_lines(spec_emitted_lines(p, ci, invert, ls))
    }
}

/// Scans one file's content and renders everything it prints on standard
/// output.
pub fn process_file(m: &Matcher, label: &str, content: &str, invert: bool, count_only: bool) -> (r:
    String)
    ensures
        r@ == spec_file_output(
            m.spec_pattern(),
            m.spec_case_insensitive(),
            invert,
            count_only,
            label@,
            content@,
        ),
{
    let lines = split_lines(content);
    let outcome: ScanOutcome = scan_lines(m, &lines, invert, count_only);
    if count_only {
        let n = if invert {
            outcome.invert_count
        } else {
            outcome.match_count
        };
        format_count_line(label, n)
    } else {
        concat_emitted(&outcome.emitted)
    }
}

/// One resolved file of a target: its label (the path, or the sentinel `-`)
/// and its content, or the message of the read error that kept it from being
/// scanned.
pub struct FileData {
    pub label: String,
    pub content: Result<String, String>,
}

/// One target of the run: its label and the files it resolved to, or the
/// error that made the whole target be skipped.
pub struct TargetData {
    pub label: String,
    pub outcome: Result<Vec<FileData>, ResolveError>,
}

/// Everything one run prints: the standard-output text, the error-stream
/// text, and how many targets were resolved and scanned without error.
pub struct RunOutput {
    pub out: String,
    pub err: String,
    pub ok_targets: usize,
}

/// What one file contributes to standard output: nothing when its read
/// failed.
pub open spec fn spec_file_out(
    p: Seq<char>,
    ci: bool,
    invert: bool,
    count_only: bool,
    f: FileData,
) -> Seq<char> {
    match f.content {
        Ok(c) => spec_file_output(p, ci, invert, count_only, f.label@, c@),
        Err(_) => Seq::empty(),
    }
}

/// What one file contributes to the error stream: its `label: reason` line
/// when its read failed, nothing otherwise.
pub open spec fn spec_file_err(f: FileData) -> Seq<char> {
    match f.content {
        Ok(_) => Seq::empty(),
        Err(msg) => spec_error_line(f.label@, msg@),
    }
}

/// The standard output of a whole file list, in order.
pub open spec fn spec_files_out(
    p: Seq<char>,
    ci: bool,
    invert: bool,
    count_only: bool,
    fs: Seq<FileData>,
) -> Seq<char>
    decreases fs.len(),
{
    if fs.len() == 0 {
        Seq::empty()
    } else {
        spec_files_out(p, ci, invert, count_only, fs.drop_last()) + spec_file_out(
            p,
            ci,
            invert,
            count_only,
            fs.last(),
        )
    }
}

/// The error stream of a whole file list, in order.
pub open spec fn spec_files_err(fs: Seq<FileData>) -> Seq<char>
    decreases fs.len(),
{
    if fs.len() == 0 {
        Seq::empty()
    } else {
        spec_files_err(fs.drop_last()) + spec_file_err(fs.last())
    }
}

/// Whether every file of the list was read without error.
pub open spec fn spec_files_ok(fs: Seq<FileData>) -> bool {
    forall|i: int| 0 <= i < fs.len() ==> fs[i].content is Ok
}

/// What one target contributes to standard output: nothing when it failed to
/// resolve.
pub open spec fn spec_target_out(
    p: Seq<char>,
    ci: bool,
    invert: bool,
    count_only: bool,
    t: TargetData,
) -> Seq<char> {
    match t.outcome {
        Ok(fs) => spec_files_out(p, ci, invert, count_only, fs@),
        Err(_) => Seq::empty(),
    }
}

/// What one target contributes to the error stream: its own `label: reason`
/// line when it failed to resolve, else the error lines of its files.
pub open spec fn spec_target_err(t: TargetData) -> Seq<char> {
    match t.outcome {
        Ok(fs) => spec_files_err(fs@),
        Err(e) => spec_error_line(t.label@, spec_resolve_reason(e)),
    }
}

/// Whether the target was resolved and every one of its files scanned.
pub open spec fn spec_target_ok(t: TargetData) -> bool {
    match t.outcome {
        Ok(fs) => spec_files_ok(fs@),
        Err(_) => false,
    }
}

/// The standard output of the whole run, targets in the order given.
pub open spec fn spec_run_out(
    p: Seq<char>,
    ci: bool,
    invert: bool,
    count_only: bool,
    ts: Seq<TargetData>,
) -> Seq<char>
    decreases ts.len(),
{
    if ts.len() == 0 {
        Seq::empty()
    } else {
        spec_run_out(p, ci, invert, count_only, ts.drop_last()) + spec_target_out(
            p,
            ci,
            invert,
            count_only,
            ts.last(),
        )
    }
}

/// The error stream of the whole run, targets in the order given.
pub open spec fn spec_run_err(ts: Seq<TargetData>) -> Seq<char>
    decreases ts.len(),
{
    if ts.len() == 0 {
        Seq::empty()
    } else {
        spec_run_err(ts.drop_last()) + spec_target_err(ts.last())
    }
}

/// How many targets were resolved and scanned without error.
pub open spec fn spec_ok_targets(ts: Seq<TargetData>) -> nat
    decreases ts.len(),
{
    if ts.len() == 0 {
        0
    } else {
        spec_ok_targets(ts.drop_last()) + if spec_target_ok(ts.last()) {
            1nat
        } else {
            0nat
        }
    }
}

/// Scans the files of one target, in order.
fn process_files(m: &Matcher, invert: bool, count_only: bool, files: &Vec<FileData>) -> (r: (
    String,
    String,
    bool,
))
    ensures
        r.0@ == spec_files_out(
            m.spec_pattern(),
            m.spec_case_insensitive(),
            invert,
            count_only,
            files@,
        ),
        r.1@ == spec_files_err(files@),
        r.2 == spec_files_ok(files@),
{
    let ghost p = m.spec_pattern();
    let ghost ci = m.spec_case_insensitive();
    let mut out = String::new();
    let mut err = String::new();
    let mut all_ok = true;
    let mut i: usize = 0;
    while i < files.len()
        invariant
            i <= files.len(),
            p == m.spec_pattern(),
            ci == m.spec_case_insensitive(),
            out@ == spec_files_out(p, ci, invert, count_only, files@.take(i as int)),
            err@ == spec_files_err(files@.take(i as int)),
            all_ok == spec_files_ok(files@.take(i as int)),
        decreases files.len() - i,
    {
        let f = &files[i];
        match &f.content {
            Ok(content) => {
                let piece = process_file(m, f.label.as_str(), content.as_str(), invert, count_only);
                out.append(piece.as_str());
            },
            Err(msg) => {
                let line = format_error_line(f.label.as_str(), msg.as_str());
                err.append(line.as_str());
                all_ok = false;
            },
        }
        proof {
            let prev = files@.take(i as int);
            let cur = files@.take(i + 1);
            assert(cur.drop_last() =~= prev);
            assert(cur.last() == files@[i as int]);
            assert(all_ok == spec_files_ok(cur)) by {
                if spec_files_ok(prev) && files@[i as int].content is Ok {
                    assert forall|k: int| 0 <= k < cur.len() implies cur[k].content is Ok by {
                        if k < i {
                            assert(prev[k].content is Ok);
                        }
                    }
                } else if !spec_files_ok(prev) {
                    let k = choose|k: int| 0 <= k < prev.len() && !(prev[k].content is Ok);
                    assert(!(cur[k].content is Ok));
                }
            }
        }
        i += 1;
    }
    proof {
        assert(files@.take(files@.len() as int) =~= files@);
    }
    (out, err, all_ok)
}

/// Runs the whole target list over already-read data: builds every byte of
/// standard output and of the error stream, in target order, and counts the
/// targets that went through without error.
pub fn run_targets(m: &Matcher, invert: bool, count_only: bool, targets: &Vec<TargetData>) -> (r:
    RunOutput)
    ensures
        r.out@ == spec_run_out(
            m.spec_pattern(),
            m.spec_case_insensitive(),
            invert,
            count_only,
            targets@,
        ),
        r.err@ == spec_run_err(targets@),
        r.ok_targets == spec_ok_targets(targets@),
{
    let ghost p = m.spec_pattern();
    let ghost ci = m.spec_case_insensitive();
    let mut out = String::new();
    let mut err = String::new();
    let mut ok_targets: usize = 0;
    let mut i: usize = 0;
    while i < targets.len()
        invariant
            i <= targets.len(),
            p == m.spec_pattern(),
            ci == m.spec_case_insensitive(),
            ok_targets <= i,
            out@ == spec_run_out(p, ci, invert, count_only, targets@.take(i as int)),
            err@ == spec_run_err(targets@.take(i as int)),
            ok_targets == spec_ok_targets(targets@.take(i as int)),
        decreases targets.len() - i,
    {
        let t = &targets[i];
        match &t.outcome {
            Ok(files) => {
                let (t_out, t_err, t_ok) = process_files(m, invert, count_only, files);
                out.append(t_out.as_str());
                err.append(t_err.as_str());
                if t_ok {
                    ok_targets += 1;
                }
            },
            Err(e) => {
                let reason = e.reason();
                let line = format_error_line(t.label.as_str(), reason.as_str());
                err.append(line.as_str());
            },
        }
        proof {
            let prev = targets@.take(i as int);
            let cur = targets@.take(i + 1);
            assert(cur.drop_last() =~= prev);
            assert(cur.last() == targets@[i as int]);
        }
        i += 1;
    }
    proof {
        assert(targets@.take(targets@.len() as int) =~= targets@);
    }
    RunOutput { out, err, ok_targets }
}

/// The run's exit status: zero exactly when at least one target was resolved
/// and scanned without error (the pattern itself having compiled). Whether
/// any line matched does not change it.
pub fn exit_code(ok_targets: usize) -> (r: i32)
    ensures
        r == if ok_targets == 0 {
            1int
        } else {
            0int
        },
{
    if ok_targets == 0 {
        1
    } else {
        0
    }
}

/// Runs over the same unmodified inputs print the same bytes: both streams of
/// a run are functions of the configuration and the targets' data alone, so
/// two runs that see the same data cannot differ.
pub proof fn lemma_run_deterministic(
    p: Seq<char>,
    ci: bool,
    invert: bool,
    count_only: bool,
    ts: Seq<TargetData>,
    out1: Seq<char>,
    err1: Seq<char>,
    out2: Seq<char>,
    err2: Seq<char>,
)
    requires
        out1 == spec_run_out(p, ci, invert, count_only, ts),
        err1 == spec_run_err(ts),
        out2 == spec_run_out(p, ci, invert, count_only, ts),
        err2 == spec_run_err(ts),
    ensures
        out1 == out2,
        err1 == err2,
{
}

} // verus!
