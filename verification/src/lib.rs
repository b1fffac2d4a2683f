//! A recursive, pattern-matching line scanner, together with the small
//! line-oriented companion utilities it ships with.
//!
//! The core is a grep-like search: a [`matcher::Matcher`] wraps a compiled
//! pattern, [`lines`] splits file contents into newline-terminated lines,
//! [`scan`] applies the matcher to every line of one file, [`format`] turns
//! outcomes into the printed text, [`traverse`] expands targets into file
//! paths, and [`runner`] sequences whole multi-target runs.

pub mod catr;
pub mod findr;
pub mod format;
pub mod headr;
pub mod lines;
pub mod matcher;
pub mod runner;
pub mod scan;
pub mod traverse;
pub mod wcr;
