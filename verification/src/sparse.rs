//! The sparse-file subsystem: recording the data extents a hole/data scan
//! reveals, deciding whether holes are worth preserving, and the
//! zero-detection rule that synthesizes holes.
//!
//! The caller performs the seek probes and the reads; the types here keep
//! the bookkeeping honest and the reconstruction provably byte-exact.

use vstd::prelude::*;
use crate::cli::SparseMode;
use crate::engine::{is_chunking, lemma_dense_copy_identity};

verus! {

/// Buffer size of the sparse read/write loops.
pub const SPARSE_BUF_SIZE: u64 = 256 * 1024;

/// One contiguous data extent of a file: `length` bytes from `offset`.
#[derive(Clone, Copy, PartialEq, Eq, Structural, Debug)]
pub struct DataRegion {
    pub offset: u64,
    pub length: u64,
}

/// Data extents in scan order: nonempty, within the file, and
/// non-overlapping left to right.
pub open spec fn regions_wf(rs: Seq<DataRegion>, size: u64) -> bool {
    &&& forall|i: int| 0 <= i < rs.len() ==> rs[i].length > 0 && rs[i].offset + rs[i].length
        <= size
    &&& forall|i: int| 0 <= i < rs.len() - 1 ==> rs[i].offset + rs[i].length <= rs[i + 1].offset
}

/// Is byte position `pos` inside one of the extents?
pub open spec fn in_regions(rs: Seq<DataRegion>, pos: int) -> bool {
    exists|k: int| 0 <= k < rs.len() && #[trigger] rs[k].offset <= pos < rs[k].offset
        + rs[k].length
}

/// Total bytes covered by the extents.
pub open spec fn data_bytes(rs: Seq<DataRegion>) -> int
    decreases rs.len(),
{
    if rs.len() == 0 {
        0
    } else {
        data_bytes(rs.drop_last()) + rs.last().length
    }
}

proof fn lemma_data_bytes_le_end(rs: Seq<DataRegion>, size: u64)
    requires
        regions_wf(rs, size),
    ensures
        rs.len() == 0 ==> data_bytes(rs) == 0,
        rs.len() > 0 ==> 0 <= data_bytes(rs) <= rs.last().offset + rs.last().length,
    decreases rs.len(),
{
    if rs.len() > 0 {
        let prefix = rs.drop_last();
        assert(regions_wf(prefix, size)) by {
            assert(forall|i: int| 0 <= i < prefix.len() ==> prefix[i] == rs[i]);
        }
        lemma_data_bytes_le_end(prefix, size);
        if prefix.len() > 0 {
            assert(prefix.last() == rs[rs.len() - 2]);
            assert(rs[rs.len() - 2].offset + rs[rs.len() - 2].length <= rs.last().offset);
        }
    }
}

/// The extents never cover more than the file.
pub proof fn lemma_data_bytes_le_size(rs: Seq<DataRegion>, size: u64)
    requires
        regions_wf(rs, size),
    ensures
        0 <= data_bytes(rs) <= size,
{
    lemma_data_bytes_le_end(rs, size);
}

/// A hole/data scan in progress: the extents found so far, the next probe
/// position, and whether the scan has reached the end.
pub struct SparseScan {
    pub regions: Vec<DataRegion>,
    pub pos: u64,
    pub done: bool,
}

impl SparseScan {
    /// The scan's invariant against the file size: extents well-formed, all
    /// of them before the probe position, which never passes the end.
    pub open spec fn wf(&self, size: u64) -> bool {
        &&& regions_wf(self.regions@, size)
        &&& self.pos <= size
        &&& self.regions@.len() > 0 ==> self.regions@.last().offset
            + self.regions@.last().length <= self.pos
    }

    /// Begin a scan of a file of `size` bytes.
    pub fn start(size: u64) -> (r: SparseScan)
        ensures
            r.wf(size),
            r.regions@.len() == 0,
            r.pos == 0,
            !r.done,
    {
        SparseScan { regions: Vec::new(), pos: 0, done: false }
    }

    /// The data probe found no further data: the rest of the file is one
    /// hole, and the scan is complete.
    pub fn no_more_data(&mut self)
        ensures
            final(self).regions == old(self).regions,
            final(self).pos == old(self).pos,
            final(self).done,
    {
        self.done = true;
    }

    /// Record one extent: the data probe answered `data_start`, and the
    /// following hole probe answered `hole_start` (`None` when it failed,
    /// which means the data runs to the end of the file).
    ///
    /// The bounds required here are the ones the kernel guarantees: data
    /// begins at or after the probe position and before the end, and the
    /// next hole lies beyond the data's start.
    pub fn record_extent(&mut self, size: u64, data_start: u64, hole_start: Option<u64>)
        requires
            old(self).wf(size),
            !old(self).done,
            old(self).pos <= data_start < size,
            match hole_start {
                Option::Some(h) => data_start < h <= size,
                Option::None => true,
            },
        ensures
            final(self).wf(size),
            final(self).regions@ == old(self).regions@.push(
                DataRegion {
                    offset: data_start,
                    length: (match hole_start {
                        Option::Some(h) => h - data_start
                        ,
                        Option::None => size - data_start,
                    }) as u64,
                },
            ),
            final(self).pos == match hole_start {
                Option::Some(h) => h
                ,
                Option::None => size,
            },
            final(self).done == (final(self).pos == size),
    {
        let end: u64 = match hole_start {
            Option::Some(h) => h,
            Option::None => size,
        };
        let region = DataRegion { offset: data_start, length: end - data_start };
        proof {
            let rs = self.regions@;
            assert(forall|i: int| 0 <= i < rs.len() ==> rs.push(region)[i] == rs[i]);
            assert(rs.push(region)[rs.len() as int] == region);
        }
        self.regions.push(region);
        self.pos = end;
        if end >= size {
            self.done = true;
        } else {
            self.done = false;
        }
    }

    /// Total bytes the recorded extents cover.
    pub fn data_bytes_total(&self, size: u64) -> (r: u64)
        requires
            self.wf(size),
        ensures
            r == data_bytes(self.regions@),
    {
        proof {
            lemma_data_bytes_le_size(self.regions@, size);
        }
        let mut sum: u64 = 0;
        let mut i: usize = 0;
        while i < self.regions.len()
            invariant
                0 <= i <= self.regions@.len(),
                regions_wf(self.regions@, size),
                sum == data_bytes(self.regions@.subrange(0, i as int)),
                sum <= size,
            decreases self.regions@.len() - i,
        {
            proof {
                let prefix = self.regions@.subrange(0, i + 1);
                assert(prefix.drop_last() =~= self.regions@.subrange(0, i as int));
                assert(prefix.last() == self.regions@[i as int]);
                assert(regions_wf(prefix, size)) by {
                    assert(forall|k: int| 0 <= k < prefix.len() ==> prefix[k]
                        == self.regions@[k]);
                }
                lemma_data_bytes_le_size(prefix, size);
            }
            sum = sum + self.regions[i].length;
            i += 1;
        }
        proof {
            assert(self.regions@.subrange(0, self.regions@.len() as int) =~= self.regions@);
        }
        sum
    }

    /// Did the scan reveal at least one hole?  Only then is the
    /// hole-preserving path worth taking; otherwise the caller falls back to
    /// a dense copy.
    pub fn found_holes(&self, size: u64) -> (r: bool)
        requires
            self.wf(size),
        ensures
            r == (data_bytes(self.regions@) < size),
    {
        let total = self.data_bytes_total(size);
        total < size
    }

    /// How many bytes of the file are holes; the progress display counts
    /// them without any read or write happening.
    pub fn hole_bytes(&self, size: u64) -> (r: u64)
        requires
            self.wf(size),
        ensures
            r == size - data_bytes(self.regions@),
    {
        proof {
            lemma_data_bytes_le_size(self.regions@, size);
        }
        let total = self.data_bytes_total(size);
        size - total
    }
}

/// What the destination holds after the hole-preserving copy: the extents'
/// bytes from the source, zeros everywhere else (the file was pre-extended,
/// so unwritten ranges read back as zero).
pub open spec fn sparse_contents(size: nat, rs: Seq<DataRegion>, src: Seq<u8>) -> Seq<u8> {
    Seq::new(size, |i: int| if in_regions(rs, i) { src[i] } else { 0u8 })
}

/// Sparse equivalence of the hole-preserving path: when every source byte
/// outside the scanned extents is zero — which is what a hole reads back
/// as — the reconstructed destination equals the source byte for byte.
pub proof fn lemma_sparse_reconstruction(src: Seq<u8>, rs: Seq<DataRegion>, size: u64)
    requires
        src.len() == size,
        forall|i: int| 0 <= i < src.len() && !in_regions(rs, i) ==> src[i] == 0,
    ensures
        sparse_contents(size as nat, rs, src) == src,
{
    assert(sparse_contents(size as nat, rs, src) =~= src);
}

/// Is the buffer all zero bytes?
pub open spec fn all_zero(s: Seq<u8>) -> bool {
    forall|i: int| 0 <= i < s.len() ==> s[i] == 0
}

/// Scan a buffer for any nonzero byte.
pub fn is_all_zero(buf: &[u8]) -> (r: bool)
    ensures
        r == all_zero(buf@),
{
    let mut i: usize = 0;
    while i < buf.len()
        invariant
            0 <= i <= buf@.len(),
            forall|j: int| 0 <= j < i ==> buf@[j] == 0,
        decreases buf@.len() - i,
    {
        if buf[i] != 0 {
            return false;
        }
        i += 1;
    }
    true
}

/// What one chunk of the hole-synthesizing copy leaves in the destination:
/// an all-zero chunk is skipped (the pre-extended file already reads zero
/// there), any other chunk is written as read.
pub open spec fn zero_detect_write(piece: Seq<u8>) -> Seq<u8> {
    if all_zero(piece) {
        Seq::new(piece.len(), |i: int| 0u8)
    } else {
        piece
    }
}

/// Sparse equivalence of the hole-synthesizing path: over any chunking of
/// the source, skipping the all-zero chunks and writing the rest reproduces
/// the source exactly.
pub proof fn lemma_zero_detection_identity(src: Seq<u8>, writes: Seq<Seq<u8>>)
    requires
        is_chunking(src, writes),
    ensures
        writes.map_values(|p: Seq<u8>| zero_detect_write(p)).flatten() == src,
{
    assert forall|k: int| 0 <= k < writes.len() implies #[trigger] zero_detect_write(writes[k])
        == writes[k] by {
        if all_zero(writes[k]) {
            assert(zero_detect_write(writes[k]) =~= writes[k]);
        }
    }
    assert(writes.map_values(|p: Seq<u8>| zero_detect_write(p)) =~= writes);
    lemma_dense_copy_identity(src, writes);
}

/// How the sparse subsystem answers each mode: `never` always declines,
/// `always` synthesizes holes from zero runs, `auto` probes for existing
/// holes and preserves them.
#[derive(Clone, Copy, PartialEq, Eq, Structural, Debug)]
pub enum SparseAction {
    Decline,
    ZeroDetect,
    ScanAndPreserve,
}

/// The mode dispatch of the sparse copy.
pub fn sparse_action(mode: SparseMode) -> (r: SparseAction)
    ensures
        r == match mode {
            SparseMode::Never => SparseAction::Decline,
            SparseMode::Always => SparseAction::ZeroDetect,
            SparseMode::Auto => SparseAction::ScanAndPreserve,
        },
{
    match mode {
        SparseMode::Never => SparseAction::Decline,
        SparseMode::Always => SparseAction::ZeroDetect,
        SparseMode::Auto => SparseAction::ScanAndPreserve,
    }
}

} // verus!
