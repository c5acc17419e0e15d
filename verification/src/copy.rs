//! The per-file copy policy: what `cp` decides about one source and one
//! destination before any data moves, and how a regular file's data copy is
//! planned.
//!
//! The caller observes the file system (stat results, identities, mtimes),
//! hands the observations in, and carries the decided actions out in the
//! stated order.

use vstd::prelude::*;
use crate::cli::{SparseMode, UpdateMode};
use crate::options::{BackupMode, CopyOptions};
use crate::util::FileId;

verus! {

/// Files smaller than this skip sparse detection: holes in tiny files are
/// not worth the probing syscalls.
pub const SPARSE_THRESHOLD: u64 = 32 * 1024;

/// No per-file policy flag is set that would force the walker onto its slow,
/// path-based route.
pub open spec fn spec_is_simple_opts(opts: CopyOptions) -> bool {
    !opts.interactive && !opts.no_clobber && !opts.remove_destination && opts.update is None
        && opts.backup == BackupMode::Off && !opts.hard_link && !opts.symbolic_link
        && !opts.attributes_only
}

/// Check whether the options are "simple" — free of per-file policy flags.
pub fn is_simple_opts(opts: &CopyOptions) -> (r: bool)
    ensures
        r == spec_is_simple_opts(*opts),
{
    !opts.interactive && !opts.no_clobber && !opts.remove_destination && opts.update.is_none()
        && opts.backup == BackupMode::Off && !opts.hard_link && !opts.symbolic_link
        && !opts.attributes_only
}

/// A file timestamp with nanosecond precision.
#[derive(Clone, Copy, PartialEq, Eq, Structural, Debug)]
pub struct Timespec {
    pub sec: i64,
    pub nsec: i64,
}

/// `a` is at least as late as `b`.
pub open spec fn spec_ts_ge(a: Timespec, b: Timespec) -> bool {
    a.sec > b.sec || (a.sec == b.sec && a.nsec >= b.nsec)
}

/// Compare two timestamps.
pub fn ts_ge(a: &Timespec, b: &Timespec) -> (r: bool)
    ensures
        r == spec_ts_ge(*a, *b),
{
    a.sec > b.sec || (a.sec == b.sec && a.nsec >= b.nsec)
}

/// What one `lstat` / `stat` pair revealed about the destination path.
#[derive(Clone, Copy, PartialEq, Eq, Structural, Debug)]
pub struct DestState {
    /// The path has an entry (its `lstat` succeeded).
    pub exists: bool,
    /// That entry is a symbolic link.
    pub is_symlink: bool,
    /// Following the path reaches a file (`stat` succeeded); false for a
    /// dangling symlink.
    pub resolves: bool,
    /// Modification time of the entry; meaningful only when it exists.
    pub mtime: Timespec,
}

/// A failure the preflight policy decides on its own.
#[derive(Clone, Copy, PartialEq, Eq, Structural, Debug)]
pub enum PreflightError {
    /// The destination is a symlink that points nowhere, and neither
    /// `--force` nor `--remove-destination` allows writing through it.
    DanglingSymlink,
    /// Source and destination are the same file.
    SameFile,
}

/// What to do about one destination before its data is touched.
#[derive(Clone, Copy, PartialEq, Eq, Structural, Debug)]
pub struct GoPlan {
    /// Prompt before overwriting; a negative answer skips the file.
    pub ask_overwrite: bool,
    /// Back the destination up first, under this mode (`Off` when the
    /// destination does not exist).
    pub backup: BackupMode,
    /// Unlink the destination before opening it.
    pub remove_destination: bool,
}

/// The preflight decision for one file.
#[derive(Clone, Copy, PartialEq, Eq, Structural, Debug)]
pub enum Preflight {
    /// Refuse with an error.
    Fail(PreflightError),
    /// Silently skip this file; the copy still counts as successful.
    Skip,
    /// Copy, after the listed preparations.
    Go(GoPlan),
}

/// The preflight policy, in the fixed order: dangling-symlink check,
/// same-file check, update policy, no-clobber, then the overwrite plan.
pub open spec fn spec_preflight(
    opts: CopyOptions,
    dst: DestState,
    src_id: Option<FileId>,
    dst_id: Option<FileId>,
    src_mtime: Timespec,
) -> Preflight {
    if dst.exists && dst.is_symlink && !dst.resolves && !opts.force && !opts.remove_destination {
        Preflight::Fail(PreflightError::DanglingSymlink)
    } else if dst.exists && src_id is Some && dst_id is Some && src_id->0 == dst_id->0 {
        Preflight::Fail(PreflightError::SameFile)
    } else if dst.exists && (opts.update == Option::Some(UpdateMode::Skip) || opts.update
        == Option::Some(UpdateMode::SkipFail)) {
        Preflight::Skip
    } else if dst.exists && opts.update == Option::Some(UpdateMode::Older) && spec_ts_ge(
        dst.mtime,
        src_mtime,
    ) {
        Preflight::Skip
    } else if dst.exists && opts.no_clobber {
        Preflight::Skip
    } else {
        Preflight::Go(
            GoPlan {
                ask_overwrite: opts.interactive && dst.exists,
                backup: if dst.exists {
                    opts.backup
                } else {
                    BackupMode::Off
                },
                remove_destination: opts.remove_destination && dst.exists,
            },
        )
    }
}

/// Decide what to do about one destination.
///
/// `src_id` and `dst_id` are the fully resolved identities of the two paths,
/// where resolving them succeeded; the same-file test compares them.
pub fn preflight(
    opts: &CopyOptions,
    dst: &DestState,
    src_id: &Option<FileId>,
    dst_id: &Option<FileId>,
    src_mtime: &Timespec,
) -> (r: Preflight)
    ensures
        r == spec_preflight(*opts, *dst, *src_id, *dst_id, *src_mtime),
{
    if dst.exists && dst.is_symlink && !dst.resolves && !opts.force && !opts.remove_destination {
        return Preflight::Fail(PreflightError::DanglingSymlink);
    }
    if dst.exists {
        match (src_id, dst_id) {
            (Option::Some(s), Option::Some(d)) => {
                if s.dev == d.dev && s.ino == d.ino {
                    return Preflight::Fail(PreflightError::SameFile);
                }
            },
            _ => {},
        }
    }
    if dst.exists {
        match opts.update {
            Option::Some(UpdateMode::Skip) | Option::Some(UpdateMode::SkipFail) => {
                return Preflight::Skip;
            },
            Option::Some(UpdateMode::Older) => {
                if ts_ge(&dst.mtime, src_mtime) {
                    return Preflight::Skip;
                }
            },
            _ => {},
        }
    }
    if dst.exists && opts.no_clobber {
        return Preflight::Skip;
    }
    Preflight::Go(
        GoPlan {
            ask_overwrite: opts.interactive && dst.exists,
            backup: if dst.exists {
                opts.backup
            } else {
                BackupMode::Off
            },
            remove_destination: opts.remove_destination && dst.exists,
        },
    )
}

/// Re-running an identical copy under `--update=older` changes nothing: when
/// the destination left behind by the first run is a real file, distinct
/// from the source, and carries a modification time at least the source's,
/// the second run skips the file without opening it.
pub proof fn lemma_update_older_recopy_skips(
    opts: CopyOptions,
    dst: DestState,
    src_id: Option<FileId>,
    dst_id: Option<FileId>,
    src_mtime: Timespec,
)
    requires
        opts.update == Option::Some(UpdateMode::Older),
        dst.exists,
        !dst.is_symlink,
        src_id is Some && dst_id is Some ==> src_id->0 != dst_id->0,
        spec_ts_ge(dst.mtime, src_mtime),
    ensures
        spec_preflight(opts, dst, src_id, dst_id, src_mtime) == Preflight::Skip,
{
}

/// The kind of filesystem object a stat reveals.
#[derive(Clone, Copy, PartialEq, Eq, Structural, Debug)]
pub enum FileKind {
    Regular,
    Directory,
    Symlink,
    Fifo,
    BlockDevice,
    CharDevice,
    Socket,
    Other,
}

/// How one filesystem object is copied.
#[derive(Clone, Copy, PartialEq, Eq, Structural, Debug)]
pub enum TypeAction {
    /// Recreate the symlink with its literal target bytes.
    RecreateSymlink,
    /// A directory cannot be copied here; recursion is handled above this
    /// layer.
    FailOmitDirectory,
    /// Copy file data and metadata.
    CopyRegular,
    /// Recreate a FIFO.
    MakeFifo,
    /// Recreate a device node.
    MakeDevice { block: bool },
    /// Sockets cannot be copied; warn and skip.
    WarnSocketSkip,
}

/// Dispatch on the source's file type.  A symlink is recreated only when the
/// follow policy keeps it; under a followed stat the kind is already the
/// target's.  Unknown kinds are treated as regular files.
pub open spec fn spec_dispatch_file_type(kind: FileKind, follow: bool) -> TypeAction {
    match kind {
        FileKind::Symlink => if !follow {
            TypeAction::RecreateSymlink
        } else {
            TypeAction::CopyRegular
        },
        FileKind::Directory => TypeAction::FailOmitDirectory,
        FileKind::Regular => TypeAction::CopyRegular,
        FileKind::Fifo => TypeAction::MakeFifo,
        FileKind::BlockDevice => TypeAction::MakeDevice { block: true },
        FileKind::CharDevice => TypeAction::MakeDevice { block: false },
        FileKind::Socket => TypeAction::WarnSocketSkip,
        FileKind::Other => TypeAction::CopyRegular,
    }
}

/// Choose the action for one source object.
pub fn dispatch_file_type(kind: FileKind, follow: bool) -> (r: TypeAction)
    ensures
        r == spec_dispatch_file_type(kind, follow),
{
    match kind {
        FileKind::Symlink => if !follow {
            TypeAction::RecreateSymlink
        } else {
            TypeAction::CopyRegular
        },
        FileKind::Directory => TypeAction::FailOmitDirectory,
        FileKind::Regular => TypeAction::CopyRegular,
        FileKind::Fifo => TypeAction::MakeFifo,
        FileKind::BlockDevice => TypeAction::MakeDevice { block: true },
        FileKind::CharDevice => TypeAction::MakeDevice { block: false },
        FileKind::Socket => TypeAction::WarnSocketSkip,
        FileKind::Other => TypeAction::CopyRegular,
    }
}

/// How a regular file's content reaches the destination.
#[derive(Clone, Copy, PartialEq, Eq, Structural, Debug)]
pub enum RegularPlan {
    /// `-l`: hard-link instead of copying.
    HardLink,
    /// `-s`: symlink instead of copying.
    SymbolicLink,
    /// `--attributes-only`: create the file if absent, copy no data.
    AttributesOnly,
    /// Zero bytes: create and truncate only.
    Empty,
    /// Offer the file to the sparse subsystem first, under this mode.
    TrySparse(SparseMode),
    /// Straight dense copy through the engine.
    Dense,
}

/// The plan for a regular file: link modes win, empty files skip the engine,
/// and sparse handling is offered only from the size threshold up.
pub open spec fn spec_regular_plan(opts: CopyOptions, size: u64) -> RegularPlan {
    if opts.hard_link {
        RegularPlan::HardLink
    } else if opts.symbolic_link {
        RegularPlan::SymbolicLink
    } else if opts.attributes_only {
        RegularPlan::AttributesOnly
    } else if size == 0 {
        RegularPlan::Empty
    } else if opts.sparse != SparseMode::Never && size >= SPARSE_THRESHOLD {
        RegularPlan::TrySparse(opts.sparse)
    } else {
        RegularPlan::Dense
    }
}

/// Plan the data copy of one regular file of `size` bytes.
pub fn regular_plan(opts: &CopyOptions, size: u64) -> (r: RegularPlan)
    ensures
        r == spec_regular_plan(*opts, size),
{
    if opts.hard_link {
        RegularPlan::HardLink
    } else if opts.symbolic_link {
        RegularPlan::SymbolicLink
    } else if opts.attributes_only {
        RegularPlan::AttributesOnly
    } else if size == 0 {
        RegularPlan::Empty
    } else if !matches!(opts.sparse, SparseMode::Never) && size >= SPARSE_THRESHOLD {
        RegularPlan::TrySparse(opts.sparse)
    } else {
        RegularPlan::Dense
    }
}

/// The permission bits a recreated FIFO or device node carries: the low
/// twelve bits of the source's mode.
pub fn special_file_mode(mode: u32) -> (r: u32)
    ensures
        r == mode % 0x1000,
{
    let r = mode & 0o7777;
    proof {
        assert(mode & 0o7777 == mode % 0x1000) by (bit_vector);
    }
    r
}

/// `S_IFBLK`, the mode bits of a block device node.
pub const S_IFBLK: u32 = 0o60000;

/// `S_IFCHR`, the mode bits of a character device node.
pub const S_IFCHR: u32 = 0o20000;

/// The full mode argument a recreated device node is given: its type bits
/// combined with the source's low twelve permission bits.
pub fn device_node_mode(block: bool, mode: u32) -> (r: u32)
    ensures
        r == (if block {
            S_IFBLK as int
        } else {
            S_IFCHR as int
        }) + mode % 0x1000,
{
    let bits = special_file_mode(mode);
    let sflag = if block {
        S_IFBLK
    } else {
        S_IFCHR
    };
    let r = sflag | bits;
    proof {
        assert(0o60000u32 | (mode & 0o7777) == 0o60000 + (mode & 0o7777)) by (bit_vector);
        assert(0o20000u32 | (mode & 0o7777) == 0o20000 + (mode & 0o7777)) by (bit_vector);
        assert(mode & 0o7777 == mode % 0x1000) by (bit_vector);
    }
    r
}

/// Byte identity under `--sparse=never`: with no link mode set, a regular
/// file is planned as a dense engine copy — the sparse subsystem is never
/// consulted — except that an empty file is created empty, which is the
/// same bytes.  The dense copy itself writes the source byte for byte.
pub proof fn lemma_sparse_never_plans_dense(opts: CopyOptions, size: u64)
    requires
        opts.sparse == SparseMode::Never,
        !opts.hard_link,
        !opts.symbolic_link,
        !opts.attributes_only,
    ensures
        spec_regular_plan(opts, size) == if size == 0 {
            RegularPlan::Empty
        } else {
            RegularPlan::Dense
        },
{
}

} // verus!
