//! The word-count companion utility.
//!
//! The tool is still a stub: it opens its inputs but counts nothing yet, so
//! every tally it reports is zero.

use vstd::prelude::*;

verus! {

/// The per-file tallies the word-count utility reports.
#[derive(Debug, PartialEq, Eq, Structural)]
pub struct FileInfo {
    pub num_lines: usize,
    pub num_words: usize,
    pub num_bytes: usize,
    pub num_chars: usize,
}

/// Tallies one already-read file. The counting pass is not implemented yet:
/// whatever the file holds, every field of the result is zero.
pub fn count(lines: &Vec<String>) -> (r: FileInfo)
    ensures
        r == (FileInfo { num_lines: 0, num_words: 0, num_bytes: 0, num_chars: 0 }),
{
    let num_lines: usize = 0;
    let num_words: usize = 0;
    let num_bytes: usize = 0;
    let num_chars: usize = 0;
    FileInfo { num_lines, num_words, num_bytes, num_chars }
}

} // verus!
