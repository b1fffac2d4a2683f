//! The traversal engine: expands one target into the ordered list of regular
//! files to scan.
//!
//! The stdin sentinel `-` names standard input and is never looked up on
//! disk. Any other target is classified; a regular file is the sole result, a
//! directory is walked only when recursion is on (files sorted by name, in a
//! fixed depth-first order, symbolic links and non-regular entries skipped),
//! and everything else is a per-target error that the caller reports and
//! skips. What the disk holds is the walker's affair; every decision taken on
//! what it reports is verified.

use vstd::prelude::*;
use vstd::string::*;
use crate::lines::seq_views;

verus! {

/// What a target path names on disk, as the walker reports it.
#[derive(Clone, Copy, Debug, PartialEq, Eq, Structural)]
pub enum TargetKind {
    Missing,
    RegularFile,
    Directory,
    Other,
}

/// Why one target was skipped. Recovered per target: reported on the error
/// stream while the run goes on with the next target.
#[derive(Clone, Copy, Debug, PartialEq, Eq, Structural)]
pub enum ResolveError {
    NotFound,
    IsADirectory,
}

/// The reason text of a resolve error, as it is printed after the target.
pub open spec fn spec_resolve_reason(e: ResolveError) -> Seq<char> {
    match e {
        ResolveError::NotFound => "No such file or directory"@,
        ResolveError::IsADirectory => "is a directory"@,
    }
}

impl ResolveError {
    /// The reason text of this error, as it is printed after the target.
    pub fn reason(&self) -> (r: String)
        ensures
            r@ == spec_resolve_reason(*self),
    {
        match self {
            ResolveError::NotFound => String::from_str("No such file or directory"),
            ResolveError::IsADirectory => String::from_str("is a directory"),
        }
    }
}

/// What the engine does with a classified target.
#[derive(Clone, Copy, Debug, PartialEq, Eq, Structural)]
pub enum ResolveDecision {
    ScanSelf,
    WalkTree,
    Reject(ResolveError),
}

/// The engine's whole decision table: a regular file is scanned as it is; a
/// directory is walked only under recursion and is otherwise an error; a
/// missing or non-regular target is not found.
pub open spec fn spec_resolve_decision(kind: TargetKind, recursive: bool) -> ResolveDecision {
    match kind {
        TargetKind::RegularFile => ResolveDecision::ScanSelf,
        TargetKind::Directory => if recursive {
            ResolveDecision::WalkTree
        } else {
            ResolveDecision::Reject(ResolveError::IsADirectory)
        },
        TargetKind::Missing => ResolveDecision::Reject(ResolveError::NotFound),
        TargetKind::Other => ResolveDecision::Reject(ResolveError::NotFound),
    }
}

/// Decides what to do with a target of the given kind.
pub fn resolve_decision(kind: TargetKind, recursive: bool) -> (r: ResolveDecision)
    ensures
        r == spec_resolve_decision(kind, recursive),
{
    match kind {
        TargetKind::RegularFile => ResolveDecision::ScanSelf,
        TargetKind::Directory => if recursive {
            ResolveDecision::WalkTree
        } else {
            ResolveDecision::Reject(ResolveError::IsADirectory)
        },
        TargetKind::Missing => ResolveDecision::Reject(ResolveError::NotFound),
        TargetKind::Other => ResolveDecision::Reject(ResolveError::NotFound),
    }
}

/// One entry the walker discovered: its path and whether it is a regular
/// file. Consumed immediately; not retained.
pub struct WalkEntry {
    pub path: String,
    pub is_file: bool,
}

/// The paths of the regular files among `entries`, in discovery order.
pub open spec fn spec_file_paths(entries: Seq<WalkEntry>) -> Seq<Seq<char>> {
    entries.filter(|e: WalkEntry| e.is_file).map_values(|e: WalkEntry| e.path@)
}

/// Keeps the regular files of a traversal listing, in order.
pub fn keep_files(entries: Vec<WalkEntry>) -> (r: Vec<String>)
    ensures
        seq_views(r@) == spec_file_paths(entries@),
{
    let mut r: Vec<String> = Vec::new();
    let mut i: usize = 0;
    while i < entries.len()
        invariant
            i <= entries.len(),
            seq_views(r@) == spec_file_paths(entries@.take(i as int)),
        decreases entries.len() - i,
    {
        proof {
            reveal(Seq::filter);
            let prev = entries@.take(i as int);
            let cur = entries@.take(i + 1);
            assert(cur.drop_last() =~= prev);
            assert(cur.last() == entries@[i as int]);
            if entries@[i as int].is_file {
                assert(spec_file_paths(cur) =~= spec_file_paths(prev).push(
                    entries@[i as int].path@,
                ));
            } else {
                assert(spec_file_paths(cur) =~= spec_file_paths(prev));
            }
        }
        if entries[i].is_file {
            r.push(entries[i].path.clone());
            proof {
                assert(seq_views(r@) =~= spec_file_paths(entries@.take(i + 1)));
            }
        }
        i += 1;
    }
    proof {
        assert(entries@.take(entries@.len() as int) =~= entries@);
    }
    r
}

/// Whether `s` is the sentinel `-` that names standard input.
pub fn is_stdin_sentinel(s: &str) -> (r: bool)
    ensures
        r == (s@ == "-"@),
{
    proof {
        reveal_strlit("-");
    }
    if s.unicode_len() == 1 {
        let c = s.get_char(0);
        proof {
            if c == '-' {
                assert(s@ =~= "-"@);
            }
        }
        c == '-'
    } else {
        false
    }
}

/// Relies on `walkdir::WalkDir` with `max_depth(0)` and `follow_links(true)`:
/// reports what the target path names on disk right now. The answer depends
/// on the disk, so nothing is promised of it; every decision taken on the
/// answer is verified downstream.
#[verifier::external_body]
fn classify_path(path: &str) -> TargetKind {
    let first = walkdir::WalkDir::new(path).max_depth(0).follow_links(true).into_iter().next();
    match first {
        Some(Ok(entry)) => {
            let ft = entry.file_type();
            if ft.is_file() {
                TargetKind::RegularFile
            } else if ft.is_dir() {
                TargetKind::Directory
            } else {
                TargetKind::Other
            }
        },
        _ => TargetKind::Missing,
    }
}

/// Relies on `walkdir::WalkDir`: walks the tree under `root` depth first,
/// file names sorted, without following symbolic links, and hands back every
/// entry it could read with its path and whether it is a regular file.
/// Unreadable entries are skipped. What comes back depends on the disk, so
/// nothing is promised of it; the regular files are then kept by the verified
/// [`keep_files`].
#[verifier::external_body]
fn walk_entries(root: &str) -> Vec<WalkEntry> {
    let mut out: Vec<WalkEntry> = Vec::new();
    let walk = walkdir::WalkDir::new(root).follow_links(false).sort_by_file_name();
    for entry in walk.into_iter().filter_map(|e| e.ok()) {
        let path = entry.path().to_string_lossy().into_owned();
        let is_file = entry.file_type().is_file();
        out.push(WalkEntry { path, is_file });
    }
    out
}

/// Carries one decision out: a target scanned as itself is the sole result,
/// a walked tree contributes exactly the regular files of its listing, and a
/// rejection hands its error through unchanged.
pub fn apply_decision(target: &str, decision: ResolveDecision, walked: Vec<WalkEntry>) -> (r:
    Result<Vec<String>, ResolveError>)
    ensures
        r is Ok <==> !(decision is Reject),
        decision is ScanSelf ==> r is Ok && seq_views(r->Ok_0@) == seq![target@],
        decision is WalkTree ==> r is Ok && seq_views(r->Ok_0@) == spec_file_paths(walked@),
        decision is Reject ==> r is Err && r->Err_0 == decision->Reject_0,
{
    match decision {
        ResolveDecision::ScanSelf => {
            let mut v: Vec<String> = Vec::new();
            v.push(String::from_str(target));
            proof {
                assert(seq_views(v@) =~= seq![target@]);
            }
            Ok(v)
        },
        ResolveDecision::WalkTree => Ok(keep_files(walked)),
        ResolveDecision::Reject(e) => Err(e),
    }
}

/// Expands one target into the regular files it denotes: the sentinel or a
/// regular file is the sole result; a directory is walked when recursion is
/// on and rejected otherwise; a missing target is not found. Errors are per
/// target: the caller reports and skips, the run goes on. Only the
/// classification and the walk listing come from the disk: whatever they
/// report, without recursion a success is the target alone, and with
/// recursion the one possible error is a target that is not found.
pub fn resolve(target: &str, recursive: bool) -> (r: Result<Vec<String>, ResolveError>)
    ensures
        target@ == "-"@ ==> r is Ok && seq_views(r->Ok_0@) == seq![target@],
        r is Err ==> target@ != "-"@,
        !recursive && r is Ok ==> seq_views(r->Ok_0@) == seq![target@],
        recursive && r is Err ==> r->Err_0 == ResolveError::NotFound,
{
    if is_stdin_sentinel(target) {
        let mut v: Vec<String> = Vec::new();
        v.push(String::from_str(target));
        proof {
            assert(seq_views(v@) =~= seq![target@]);
        }
        return Ok(v);
    }
    let kind = classify_path(target);
    let decision = resolve_decision(kind, recursive);
    let walked: Vec<WalkEntry> = match decision {
        ResolveDecision::WalkTree => walk_entries(target),
        _ => Vec::new(),
    };
    apply_decision(target, decision, walked)
}

} // verus!
