//! A verified core for a POSIX `cp`-style file-copy utility.
//!
//! The library holds the decision logic of the utility — option resolution,
//! per-file copy policy, the copy-engine cascade, sparse-file planning,
//! backup naming, hard-link deduplication and the directory-walk bookkeeping —
//! as verified functions over plain values.  Paths are POSIX byte strings.
//! All file-system work (syscalls, prompting, progress display) lives with the
//! callers, which feed observations in and carry the decided actions out.

pub mod backup;
pub mod bytes;
pub mod cli;
pub mod copy;
pub mod dir;
pub mod engine;
pub mod error;
pub mod metadata;
pub mod options;
pub mod sparse;
pub mod util;
