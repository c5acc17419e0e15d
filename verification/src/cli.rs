//! The command-line surface, as plain values.
//!
//! The fields mirror the flags of the utility one for one.  Argument parsing
//! itself happens outside the library; what arrives here is the parsed record,
//! with every textual value as a POSIX byte string.

use vstd::prelude::*;

verus! {

/// Control of clone / copy-on-write copies (`--reflink=WHEN`).
#[derive(Clone, Copy, PartialEq, Eq, Structural, Debug)]
pub enum ReflinkMode {
    Always,
    Auto,
    Never,
}

/// Control of sparse-file creation (`--sparse=WHEN`).
#[derive(Clone, Copy, PartialEq, Eq, Structural, Debug)]
pub enum SparseMode {
    Always,
    Auto,
    Never,
}

/// Control of `--update=MODE`.
///
/// `Skip` and `SkipFail` stand for the `none` and `none-fail` controls.
#[derive(Clone, Copy, PartialEq, Eq, Structural, Debug)]
pub enum UpdateMode {
    /// Copy only when the source is newer than the destination.
    Older,
    /// Copy unconditionally.
    All,
    /// Never overwrite an existing destination.
    Skip,
    /// Like `Skip`.
    SkipFail,
}

/// The parsed command line.
#[derive(Clone, Debug)]
pub struct Cli {
    pub archive: bool,
    pub attributes_only: bool,
    pub backup: Option<Vec<u8>>,
    pub simple_backup: bool,
    pub copy_contents: bool,
    pub no_deref_preserve_links: bool,
    pub debug: bool,
    pub force: bool,
    pub interactive: bool,
    pub dereference_args: bool,
    pub hard_link: bool,
    pub dereference: bool,
    pub no_clobber: bool,
    pub no_dereference: bool,
    pub preserve_default: bool,
    pub preserve: Option<Vec<Vec<u8>>>,
    pub no_preserve: Option<Vec<Vec<u8>>>,
    pub parents: bool,
    pub recursive: bool,
    pub reflink: Option<ReflinkMode>,
    pub remove_destination: bool,
    pub sparse: Option<SparseMode>,
    pub strip_trailing_slashes: bool,
    pub symbolic_link: bool,
    pub suffix: Option<Vec<u8>>,
    pub target_directory: Option<Vec<u8>>,
    pub no_target_directory: bool,
    pub update: Option<UpdateMode>,
    pub progress: bool,
    pub verbose: bool,
    pub one_file_system: bool,
    pub selinux_default: bool,
    pub context: Option<Vec<u8>>,
    pub keep_directory_symlink: bool,
    pub paths: Vec<Vec<u8>>,
}

} // verus!
