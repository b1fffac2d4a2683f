//! The cat-like companion utility: its resolved configuration.
//!
//! The printing loop itself lives at the command-line edge; only the
//! configuration it runs on is kept here.

use vstd::prelude::*;

verus! {

/// The resolved configuration of one cat-like run: the inputs and which of
/// the two numbering modes is on.
#[derive(Debug)]
pub struct Config {
    pub files: Vec<String>,
    pub number_lines: bool,
    pub number_nonblank_lines: bool,
}

} // verus!
