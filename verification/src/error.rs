//! The error taxonomy of the utility, as plain values.
//!
//! Paths are carried as POSIX byte strings and failed syscalls as their raw
//! `errno`; rendering a diagnostic message around them is the caller's
//! concern.

use vstd::prelude::*;

verus! {

/// One failure of a copy operation.
#[derive(Clone, PartialEq, Eq, Debug)]
pub enum CpError {
    /// Cannot read the attributes of a source.
    Stat { path: Vec<u8>, errno: i32 },
    /// Cannot open a file for reading.
    OpenRead { path: Vec<u8>, errno: i32 },
    /// Cannot create a regular file.
    CreateFile { path: Vec<u8>, errno: i32 },
    /// Cannot create a directory.
    CreateDir { path: Vec<u8>, errno: i32 },
    /// A read failed mid-transfer.
    Read { path: Vec<u8>, errno: i32 },
    /// A write failed mid-transfer.
    Write { path: Vec<u8>, errno: i32 },
    /// Source and destination are the same file (same device and inode).
    SameFile { src: Vec<u8>, dst: Vec<u8> },
    /// The destination lies inside the source directory.
    CopyIntoSelf { path: Vec<u8>, dest: Vec<u8> },
    /// A directory source without the recursive flag.
    OmitDirectory { path: Vec<u8> },
    /// A single operand and no destination.
    MissingDestination { src: Vec<u8> },
    /// No operand at all.
    MissingOperand,
    /// The target of a multi-source copy is not a directory.
    NotADirectory { path: Vec<u8> },
    /// A directory would overwrite a non-directory.
    OverwriteNonDir { src: Vec<u8>, dst: Vec<u8> },
    /// Refusal to overwrite a file the same run just created.
    WillNotOverwrite { path: Vec<u8>, src: Vec<u8> },
    /// An engine-level copy failure.
    Copy { src: Vec<u8>, dst: Vec<u8>, reason: Vec<u8> },
    /// Ownership could not be preserved.
    Chown { path: Vec<u8>, errno: i32 },
    /// Permissions could not be preserved.
    Chmod { path: Vec<u8>, errno: i32 },
    /// Timestamps could not be preserved.
    Timestamps { path: Vec<u8>, errno: i32 },
    /// Extended attributes could not be preserved.
    Xattr { path: Vec<u8>, errno: i32 },
    /// An access-control list could not be preserved.
    Acl { path: Vec<u8>, msg: Vec<u8> },
    /// Cannot create a symbolic link.
    Symlink { dst: Vec<u8>, errno: i32 },
    /// Cannot create a hard link.
    HardLink { src: Vec<u8>, dst: Vec<u8>, errno: i32 },
    /// Cannot create a FIFO or device node.
    MkNod { path: Vec<u8>, errno: i32 },
    /// Cannot read the target of a symbolic link.
    ReadLink { path: Vec<u8>, errno: i32 },
    /// The destination is a symlink that points nowhere.
    DanglingSymlink { path: Vec<u8> },
    /// Cannot remove an existing destination.
    Remove { path: Vec<u8>, errno: i32 },
    /// A seek failed during a sparse copy.
    Seek { path: Vec<u8>, errno: i32 },
    /// Any other failure, described in prose.
    Other { msg: Vec<u8> },
}

} // verus!
