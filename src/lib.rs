//! Enforces a maximum line count over a set of files.
//!
//! The library holds the decisions of the check: which discovered files are
//! selected by the inclusion and exclusion patterns, how many lines a file's text
//! has, which files exceed the limit, and what the report says. Walking the
//! file system and reading files is left to the caller.

pub mod checker;
pub mod laws;
pub mod lines;
pub mod pattern;
pub mod report;

pub use checker::{
    evaluate, retain_marked, select_files, selection_marks, FileEntry, FileRecord, PatternError, PatternRole,
};
pub use lines::{count_lines, get_size};
pub use report::{exit_code, red, report};
