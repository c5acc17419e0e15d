//! The single-file data-transfer cascade: clone, in-kernel copy, send-file,
//! then a userspace read/write loop.
//!
//! The engine is a state machine over plain values.  The caller makes one
//! syscall per step, reports what the kernel returned as an event, and the
//! machine decides the next stage and the tag that names the method used.

use vstd::prelude::*;
use crate::cli::ReflinkMode;

verus! {

/// Bytes requested from the in-kernel copy and send-file calls per step.
pub const COPY_CHUNK: u64 = 64 * 1024 * 1024;

/// Buffer size of the userspace read/write fallback.
pub const RW_BUF_SIZE: u64 = 256 * 1024;

/// Under `--reflink=auto`, files smaller than this skip the clone attempt:
/// the ioctl is not worth it on small files.
pub const REFLINK_THRESHOLD: u64 = 256 * 1024;

/// The transfer method that completed a copy, as reported by debug output.
#[derive(Clone, Copy, PartialEq, Eq, Structural, Debug)]
pub enum CopyMethod {
    Reflink,
    CopyFileRange,
    Sendfile,
    ReadWrite,
    CopyFileRangeSendfile,
    CopyFileRangeReadWrite,
}

impl CopyMethod {
    /// The tag printed for `--debug`.
    pub fn label(&self) -> (r: &'static str)
        ensures
            match self {
                CopyMethod::Reflink => r@ == "reflink (FICLONE)"@,
                CopyMethod::CopyFileRange => r@ == "copy_file_range"@,
                CopyMethod::Sendfile => r@ == "sendfile"@,
                CopyMethod::ReadWrite => r@ == "read/write"@,
                CopyMethod::CopyFileRangeSendfile => r@ == "copy_file_range+sendfile"@,
                CopyMethod::CopyFileRangeReadWrite => r@ == "copy_file_range+read/write"@,
            },
    {
        match self {
            CopyMethod::Reflink => "reflink (FICLONE)",
            CopyMethod::CopyFileRange => "copy_file_range",
            CopyMethod::Sendfile => "sendfile",
            CopyMethod::ReadWrite => "read/write",
            CopyMethod::CopyFileRangeSendfile => "copy_file_range+sendfile",
            CopyMethod::CopyFileRangeReadWrite => "copy_file_range+read/write",
        }
    }
}

/// Whether the clone ioctl is attempted at all.
pub open spec fn spec_should_try_reflink(reflink: ReflinkMode, size: u64) -> bool {
    match reflink {
        ReflinkMode::Always => true,
        ReflinkMode::Never => false,
        ReflinkMode::Auto => size >= REFLINK_THRESHOLD,
    }
}

/// Decide whether to attempt the clone ioctl.
pub fn should_try_reflink(reflink: ReflinkMode, size: u64) -> (r: bool)
    ensures
        r == spec_should_try_reflink(reflink, size),
{
    match reflink {
        ReflinkMode::Always => true,
        ReflinkMode::Never => false,
        ReflinkMode::Auto => size >= REFLINK_THRESHOLD,
    }
}

/// Where the cascade stands.  `copied` counts the bytes the kernel has
/// acknowledged so far in the current accounting.
#[derive(Clone, Copy, PartialEq, Eq, Structural, Debug)]
pub enum EngineState {
    /// About to attempt the clone ioctl.
    TryClone,
    /// Looping on the in-kernel cross-descriptor copy.
    CfrLoop { copied: u64 },
    /// Looping on send-file; `after_cfr` records whether the in-kernel copy
    /// moved bytes first, which decides the tag.
    SendLoop { copied: u64, after_cfr: bool },
    /// Looping on the userspace read/write fallback.
    RwLoop { after_cfr: bool },
    /// All data transferred.
    Done { method: CopyMethod },
    /// The clone failed under `--reflink=always`; the copy fails.
    FailedClone,
    /// A read failed in the fallback loop.
    FailedRead,
    /// A write failed in the fallback loop.
    FailedWrite,
}

/// What the kernel answered to one step of the cascade.
#[derive(Clone, Copy, PartialEq, Eq, Structural, Debug)]
pub enum EngineEvent {
    CloneOk,
    CloneFail,
    /// The in-kernel copy moved `n` bytes.
    CfrBytes { n: u64 },
    /// The in-kernel copy reported end of file.
    CfrEof,
    /// The in-kernel copy failed (unsupported, cross-device, or otherwise).
    CfrErr,
    /// Send-file moved `n` bytes.
    SendBytes { n: u64 },
    /// Send-file reported end of file.
    SendEof,
    /// Send-file failed.
    SendErr,
    /// The fallback loop read and wrote `n` bytes.
    RwBytes { n: u64 },
    /// The fallback loop reached end of file.
    RwEof,
    /// A read failed.
    RwReadErr,
    /// A write failed.
    RwWriteErr,
}

/// The states in which the caller still has a syscall to make.
pub open spec fn engine_running(s: EngineState) -> bool {
    s is TryClone || s is CfrLoop || s is SendLoop || s is RwLoop
}

/// The machine's invariant: progress counters stay strictly below the size,
/// so another request is always meaningful.
pub open spec fn engine_inv(s: EngineState, size: u64) -> bool {
    match s {
        EngineState::CfrLoop { copied } => copied < size,
        EngineState::SendLoop { copied, after_cfr } => copied < size,
        _ => true,
    }
}

/// Which events answer which states, and within what bounds.
pub open spec fn engine_event_ok(s: EngineState, ev: EngineEvent, size: u64) -> bool {
    match (s, ev) {
        (EngineState::TryClone, EngineEvent::CloneOk) => true,
        (EngineState::TryClone, EngineEvent::CloneFail) => true,
        (EngineState::CfrLoop { copied }, EngineEvent::CfrBytes { n }) => 0 < n <= size - copied,
        (EngineState::CfrLoop { copied }, EngineEvent::CfrEof) => true,
        (EngineState::CfrLoop { copied }, EngineEvent::CfrErr) => true,
        (EngineState::SendLoop { copied, .. }, EngineEvent::SendBytes { n }) => 0 < n <= size
            - copied,
        (EngineState::SendLoop { .. }, EngineEvent::SendEof) => true,
        (EngineState::SendLoop { .. }, EngineEvent::SendErr) => true,
        (EngineState::RwLoop { .. }, EngineEvent::RwBytes { n }) => n > 0,
        (EngineState::RwLoop { .. }, EngineEvent::RwEof) => true,
        (EngineState::RwLoop { .. }, EngineEvent::RwReadErr) => true,
        (EngineState::RwLoop { .. }, EngineEvent::RwWriteErr) => true,
        _ => false,
    }
}

/// The cascade's transition relation.
///
/// A failed clone falls through silently except under `--reflink=always`.
/// The in-kernel copy hands unfinished work to send-file, which hands it to
/// the read/write loop; tags record whether the in-kernel copy contributed.
/// An early end of file from send-file ends the copy as a success, matching
/// the kernel's report that there is nothing left to send.
pub open spec fn spec_engine_step(
    s: EngineState,
    ev: EngineEvent,
    size: u64,
    reflink: ReflinkMode,
) -> EngineState {
    match (s, ev) {
        (EngineState::TryClone, EngineEvent::CloneOk) => EngineState::Done {
            method: CopyMethod::Reflink,
        },
        (EngineState::TryClone, EngineEvent::CloneFail) => if reflink == ReflinkMode::Always {
            EngineState::FailedClone
        } else {
            EngineState::CfrLoop { copied: 0 }
        },
        (EngineState::CfrLoop { copied }, EngineEvent::CfrBytes { n }) => if copied + n
            == size {
            EngineState::Done { method: CopyMethod::CopyFileRange }
        } else {
            EngineState::CfrLoop { copied: (copied + n) as u64 }
        },
        (EngineState::CfrLoop { copied }, EngineEvent::CfrEof) => EngineState::SendLoop {
            copied,
            after_cfr: copied > 0,
        },
        (EngineState::CfrLoop { copied }, EngineEvent::CfrErr) => EngineState::SendLoop {
            copied,
            after_cfr: copied > 0,
        },
        (EngineState::SendLoop { copied, after_cfr }, EngineEvent::SendBytes { n }) => if copied
            + n == size {
            EngineState::Done {
                method: if after_cfr {
                    CopyMethod::CopyFileRangeSendfile
                } else {
                    CopyMethod::Sendfile
                },
            }
        } else {
            EngineState::SendLoop { copied: (copied + n) as u64, after_cfr }
        },
        (EngineState::SendLoop { copied, after_cfr }, EngineEvent::SendEof) => EngineState::Done {
            method: if after_cfr {
                CopyMethod::CopyFileRangeSendfile
            } else {
                CopyMethod::Sendfile
            },
        },
        (EngineState::SendLoop { copied, after_cfr }, EngineEvent::SendErr) => EngineState::RwLoop {
            after_cfr,
        },
        (EngineState::RwLoop { after_cfr }, EngineEvent::RwBytes { n }) => EngineState::RwLoop {
            after_cfr,
        },
        (EngineState::RwLoop { after_cfr }, EngineEvent::RwEof) => EngineState::Done {
            method: if after_cfr {
                CopyMethod::CopyFileRangeReadWrite
            } else {
                CopyMethod::ReadWrite
            },
        },
        (EngineState::RwLoop { .. }, EngineEvent::RwReadErr) => EngineState::FailedRead,
        (EngineState::RwLoop { .. }, EngineEvent::RwWriteErr) => EngineState::FailedWrite,
        _ => s,
    }
}

/// Start the cascade for a file of `size` bytes (zero-byte files never enter
/// the engine).
pub fn engine_start(reflink: ReflinkMode, size: u64) -> (r: EngineState)
    requires
        size > 0,
    ensures
        r == if spec_should_try_reflink(reflink, size) {
            EngineState::TryClone
        } else {
            EngineState::CfrLoop { copied: 0u64 }
        },
        engine_inv(r, size),
{
    if should_try_reflink(reflink, size) {
        EngineState::TryClone
    } else {
        EngineState::CfrLoop { copied: 0 }
    }
}

/// Advance the cascade by one kernel answer.
pub fn engine_step(s: EngineState, ev: EngineEvent, size: u64, reflink: ReflinkMode) -> (r:
    EngineState)
    requires
        size > 0,
        engine_inv(s, size),
        engine_event_ok(s, ev, size),
    ensures
        r == spec_engine_step(s, ev, size, reflink),
        engine_inv(r, size),
{
    match (s, ev) {
        (EngineState::TryClone, EngineEvent::CloneOk) => EngineState::Done {
            method: CopyMethod::Reflink,
        },
        (EngineState::TryClone, EngineEvent::CloneFail) => {
            if matches!(reflink, ReflinkMode::Always) {
                EngineState::FailedClone
            } else {
                EngineState::CfrLoop { copied: 0 }
            }
        },
        (EngineState::CfrLoop { copied }, EngineEvent::CfrBytes { n }) => {
            if copied + n == size {
                EngineState::Done { method: CopyMethod::CopyFileRange }
            } else {
                EngineState::CfrLoop { copied: copied + n }
            }
        },
        (EngineState::CfrLoop { copied }, EngineEvent::CfrEof) => EngineState::SendLoop {
            copied,
            after_cfr: copied > 0,
        },
        (EngineState::CfrLoop { copied }, EngineEvent::CfrErr) => EngineState::SendLoop {
            copied,
            after_cfr: copied > 0,
        },
        (EngineState::SendLoop { copied, after_cfr }, EngineEvent::SendBytes { n }) => {
            if copied + n == size {
                EngineState::Done {
                    method: if after_cfr {
                        CopyMethod::CopyFileRangeSendfile
                    } else {
                        CopyMethod::Sendfile
                    },
                }
            } else {
                EngineState::SendLoop { copied: copied + n, after_cfr }
            }
        },
        (EngineState::SendLoop { copied: _, after_cfr }, EngineEvent::SendEof) => {
            EngineState::Done {
                method: if after_cfr {
                    CopyMethod::CopyFileRangeSendfile
                } else {
                    CopyMethod::Sendfile
                },
            }
        },
        (EngineState::SendLoop { copied: _, after_cfr }, EngineEvent::SendErr) => {
            EngineState::RwLoop { after_cfr }
        },
        (EngineState::RwLoop { after_cfr }, EngineEvent::RwBytes { n: _ }) => {
            EngineState::RwLoop { after_cfr }
        },
        (EngineState::RwLoop { after_cfr }, EngineEvent::RwEof) => EngineState::Done {
            method: if after_cfr {
                CopyMethod::CopyFileRangeReadWrite
            } else {
                CopyMethod::ReadWrite
            },
        },
        (EngineState::RwLoop { .. }, EngineEvent::RwReadErr) => EngineState::FailedRead,
        (EngineState::RwLoop { .. }, EngineEvent::RwWriteErr) => EngineState::FailedWrite,
        _ => s,
    }
}

/// How many bytes the next syscall should request.
pub fn next_request(s: &EngineState, size: u64) -> (r: u64)
    requires
        engine_inv(*s, size),
        *s is CfrLoop || *s is SendLoop || *s is RwLoop,
    ensures
        match *s {
            EngineState::CfrLoop { copied } => r == if size - copied < COPY_CHUNK {
                (size - copied) as int
            } else {
                COPY_CHUNK as int
            },
            EngineState::SendLoop { copied, .. } => r == if size - copied < COPY_CHUNK {
                (size - copied) as int
            } else {
                COPY_CHUNK as int
            },
            EngineState::RwLoop { .. } => r == RW_BUF_SIZE,
            _ => false,
        },
{
    match s {
        EngineState::CfrLoop { copied } => {
            let remaining = size - *copied;
            if remaining < COPY_CHUNK {
                remaining
            } else {
                COPY_CHUNK
            }
        },
        EngineState::SendLoop { copied, .. } => {
            let remaining = size - *copied;
            if remaining < COPY_CHUNK {
                remaining
            } else {
                COPY_CHUNK
            }
        },
        _ => RW_BUF_SIZE,
    }
}

/// `writes` are consecutive pieces of `src` starting at `from` and reaching
/// its end.
pub open spec fn is_chunking_from(src: Seq<u8>, writes: Seq<Seq<u8>>, from: int) -> bool
    decreases writes.len(),
{
    if writes.len() == 0 {
        from == src.len()
    } else {
        &&& 0 <= from
        &&& from + writes.first().len() <= src.len()
        &&& writes.first() == src.subrange(from, from + writes.first().len())
        &&& is_chunking_from(src, writes.drop_first(), from + writes.first().len())
    }
}

/// `writes` are consecutive pieces of `src`, beginning to end.
pub open spec fn is_chunking(src: Seq<u8>, writes: Seq<Seq<u8>>) -> bool {
    is_chunking_from(src, writes, 0)
}

proof fn lemma_chunking_flatten(src: Seq<u8>, writes: Seq<Seq<u8>>, from: int)
    requires
        0 <= from <= src.len(),
        is_chunking_from(src, writes, from),
    ensures
        writes.flatten() == src.subrange(from, src.len() as int),
    decreases writes.len(),
{
    if writes.len() == 0 {
        assert(writes.flatten() =~= src.subrange(from, src.len() as int));
    } else {
        let w0 = writes.first();
        lemma_chunking_flatten(src, writes.drop_first(), from + w0.len());
        assert(writes.flatten() == w0 + writes.drop_first().flatten());
        assert(w0 + src.subrange(from + w0.len(), src.len() as int) =~= src.subrange(
            from,
            src.len() as int,
        ));
    }
}

/// Byte identity of a dense copy: a destination written as consecutive
/// chunks of the source, in order, from offset zero to its end, holds
/// exactly the source's bytes.
pub proof fn lemma_dense_copy_identity(src: Seq<u8>, writes: Seq<Seq<u8>>)
    requires
        is_chunking(src, writes),
    ensures
        writes.flatten() == src,
{
    lemma_chunking_flatten(src, writes, 0);
    assert(src.subrange(0, src.len() as int) =~= src);
}

} // verus!
