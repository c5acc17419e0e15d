//! The recursive walker's bookkeeping: directory-entry classification, the
//! fast-path choice, the parallel fan-out layout, the deferred
//! directory-metadata list, and the hard-link ledger.
//!
//! The walker itself lives with the caller, which owns the descriptors and
//! the threads; every decision it takes comes from here.

use vstd::prelude::*;
use vstd::slice::{slice_subrange, slice_to_vec};
use std::collections::HashMap;
use crate::bytes::{clone_bytes, starts_with_bytes, DOT, SLASH};
use crate::copy::{is_simple_opts, spec_is_simple_opts, Timespec};
use crate::metadata::EPERM;
use crate::options::{CopyOptions, Dereference};

verus! {

// The directory-entry type codes the kernel reports.
pub const DT_FIFO: u8 = 1;
pub const DT_CHR: u8 = 2;
pub const DT_DIR: u8 = 4;
pub const DT_BLK: u8 = 6;
pub const DT_REG: u8 = 8;
pub const DT_LNK: u8 = 10;
pub const DT_SOCK: u8 = 12;

/// `EEXIST`: the path already exists.
pub const EEXIST: i32 = 17;

/// A directory with at least this many regular files is copied by a worker
/// pool instead of sequentially.
pub const PARALLEL_THRESHOLD: usize = 64;

/// The worker pool never exceeds this many threads.
pub const MAX_WORKERS: usize = 8;

/// The buckets one enumeration pass sorts a directory's entries into.
#[derive(Clone, Copy, PartialEq, Eq, Structural, Debug)]
pub enum EntryClass {
    /// `.` or `..`: never copied.
    SkipDot,
    Regular,
    Symlink,
    Directory,
    /// FIFO or device node, recreated rather than copied.
    Special,
    /// Sockets cannot be copied: warn and move on.
    SocketWarn,
    /// Any other type code: left alone.
    Ignored,
}

/// How one directory entry is classified, from its type code and name.
pub open spec fn spec_classify_dirent(d_type: u8, name: Seq<u8>) -> EntryClass {
    if name == seq![DOT] || name == seq![DOT, DOT] {
        EntryClass::SkipDot
    } else if d_type == DT_REG {
        EntryClass::Regular
    } else if d_type == DT_LNK {
        EntryClass::Symlink
    } else if d_type == DT_DIR {
        EntryClass::Directory
    } else if d_type == DT_FIFO || d_type == DT_CHR || d_type == DT_BLK {
        EntryClass::Special
    } else if d_type == DT_SOCK {
        EntryClass::SocketWarn
    } else {
        EntryClass::Ignored
    }
}

/// Classify one directory entry.
pub fn classify_dirent(d_type: u8, name: &[u8]) -> (r: EntryClass)
    ensures
        r == spec_classify_dirent(d_type, name@),
{
    let is_dot = name.len() == 1 && name[0] == DOT;
    let is_dotdot = name.len() == 2 && name[0] == DOT && name[1] == DOT;
    proof {
        if is_dot {
            assert(name@ =~= seq![DOT]);
        } else {
            assert(name@ != seq![DOT]) by {
                if name@ == seq![DOT] {
                    assert(name@.len() == 1 && name@[0] == DOT);
                }
            }
        }
        if is_dotdot {
            assert(name@ =~= seq![DOT, DOT]);
        } else {
            assert(name@ != seq![DOT, DOT]) by {
                if name@ == seq![DOT, DOT] {
                    assert(name@.len() == 2 && name@[0] == DOT && name@[1] == DOT);
                }
            }
        }
    }
    if is_dot || is_dotdot {
        EntryClass::SkipDot
    } else if d_type == DT_REG {
        EntryClass::Regular
    } else if d_type == DT_LNK {
        EntryClass::Symlink
    } else if d_type == DT_DIR {
        EntryClass::Directory
    } else if d_type == DT_FIFO || d_type == DT_CHR || d_type == DT_BLK {
        EntryClass::Special
    } else if d_type == DT_SOCK {
        EntryClass::SocketWarn
    } else {
        EntryClass::Ignored
    }
}

/// The walker takes its descriptor-relative fast path exactly when no
/// per-file policy flag is set and symlinks are not followed everywhere.
pub open spec fn spec_use_fast_path(opts: CopyOptions) -> bool {
    spec_is_simple_opts(opts) && opts.dereference != Dereference::Always
}

/// Choose between the fast descriptor-relative walk and the slow path-based
/// walk.
pub fn use_fast_path(opts: &CopyOptions) -> (r: bool)
    ensures
        r == spec_use_fast_path(*opts),
{
    is_simple_opts(opts) && !matches!(opts.dereference, Dereference::Always)
}

/// Does any per-file preservation flag require a stat of each file?
pub open spec fn spec_needs_file_meta(opts: CopyOptions) -> bool {
    opts.preserve_mode || opts.preserve_ownership || opts.preserve_timestamps
        || opts.preserve_xattr || opts.preserve_acl
}

/// Whether each copied file's metadata must be read and reapplied.
pub fn needs_file_meta(opts: &CopyOptions) -> (r: bool)
    ensures
        r == spec_needs_file_meta(*opts),
{
    opts.preserve_mode || opts.preserve_ownership || opts.preserve_timestamps
        || opts.preserve_xattr || opts.preserve_acl
}

/// Does directory metadata need to be recorded and applied bottom-up?
pub open spec fn spec_needs_dir_meta(opts: CopyOptions) -> bool {
    opts.preserve_mode || opts.preserve_ownership || opts.preserve_timestamps
}

/// Whether directories' metadata is deferred and applied after the walk.
pub fn needs_dir_meta(opts: &CopyOptions) -> (r: bool)
    ensures
        r == spec_needs_dir_meta(*opts),
{
    opts.preserve_mode || opts.preserve_ownership || opts.preserve_timestamps
}

/// Under `--one-file-system`, an entry on another device is skipped.
pub fn skip_foreign_device(src_dev: &Option<u64>, entry_dev: u64) -> (r: bool)
    ensures
        r == match *src_dev {
            Option::Some(d) => d != entry_dev,
            Option::None => false,
        },
{
    match src_dev {
        Option::Some(d) => *d != entry_dev,
        Option::None => false,
    }
}

/// A failed `mkdir` is fatal unless the directory was already there.
pub fn mkdir_failure_fatal(errno: i32) -> (r: bool)
    ensures
        r == (errno != EEXIST),
{
    errno != EEXIST
}

/// A failed device-node creation is tolerated with a warning when only
/// privilege was missing.
pub fn mknod_failure_fatal(errno: i32) -> (r: bool)
    ensures
        r == (errno != EPERM),
{
    errno != EPERM
}

/// Is this directory big enough for the worker pool?
pub fn should_parallelize(n_files: usize) -> (r: bool)
    ensures
        r == (n_files >= PARALLEL_THRESHOLD),
{
    n_files >= PARALLEL_THRESHOLD
}

/// Size the worker pool: as many threads as the machine offers, capped, and
/// a chunk size that covers every file.
pub fn worker_layout(n_files: usize, available: usize) -> (r: (usize, usize))
    requires
        1 <= available,
        1 <= n_files,
        n_files <= usize::MAX - MAX_WORKERS,
    ensures
        r.0 == if available < MAX_WORKERS {
            available as int
        } else {
            MAX_WORKERS as int
        },
        1 <= r.0 <= MAX_WORKERS,
        r.1 == (n_files + r.0 - 1) / (r.0 as int),
        1 <= r.1,
        r.1 * r.0 >= n_files,
{
    let threads = if available < MAX_WORKERS {
        available
    } else {
        MAX_WORKERS
    };
    let chunk = (n_files + (threads - 1)) / threads;
    proof {
        let n = n_files as int;
        let t = threads as int;
        let x = n + t - 1;
        vstd::arithmetic::div_mod::lemma_fundamental_div_mod(x, t);
        vstd::arithmetic::div_mod::lemma_mod_division_less_than_divisor(x, t);
        assert(t * (x / t) == x - x % t);
        assert(t * (x / t) >= n);
        assert(chunk as int == x / t);
        if chunk == 0 {
            assert(x / t == 0);
            assert(t * (x / t) == 0) by (nonlinear_arith)
                requires
                    x / t == 0,
            ;
            assert(false);
        }
        assert((chunk as int) * t == t * (x / t)) by (nonlinear_arith)
            requires
                chunk as int == x / t,
        ;
    }
    (threads, chunk)
}

/// The metadata snapshot the walker keeps for a directory until the walk is
/// over.
#[derive(Clone, Copy, PartialEq, Eq, Structural, Debug)]
pub struct StatSnapshot {
    pub mode: u32,
    pub uid: u32,
    pub gid: u32,
    pub atime: Timespec,
    pub mtime: Timespec,
}

/// One deferred directory: where it came from, where it went, and the
/// metadata to apply once everything beneath it is written.
#[derive(Clone, Debug)]
pub struct DirMetaEntry {
    pub src: Vec<u8>,
    pub dst: Vec<u8>,
    pub stat: StatSnapshot,
}

/// The deferral list: directories in the order the walk met them, each
/// parent before anything beneath it.
pub struct DirMetaList {
    items: Vec<DirMetaEntry>,
}

impl View for DirMetaList {
    type V = Seq<DirMetaEntry>;

    closed spec fn view(&self) -> Seq<DirMetaEntry> {
        self.items@
    }
}

impl DirMetaList {
    /// An empty deferral list.
    pub fn new() -> (r: DirMetaList)
        ensures
            r@ == Seq::<DirMetaEntry>::empty(),
    {
        DirMetaList { items: Vec::new() }
    }

    /// Record one directory, during the top-down walk.
    pub fn record(&mut self, entry: DirMetaEntry)
        ensures
            final(self)@ == old(self)@.push(entry),
    {
        self.items.push(entry);
    }

    /// How many directories are waiting.
    pub fn len(&self) -> (r: usize)
        ensures
            r == self@.len(),
    {
        self.items.len()
    }

    /// The application order: the recorded list reversed, deepest first.
    pub fn into_bottom_up(self) -> (r: Vec<DirMetaEntry>)
        ensures
            r@.len() == self@.len(),
            forall|i: int| 0 <= i < r@.len() ==> r@[i] == self@[self@.len() - 1 - i],
    {
        let ghost orig = self@;
        let mut items = self.items;
        let mut out: Vec<DirMetaEntry> = Vec::new();
        while items.len() > 0
            invariant
                items@ == orig.subrange(0, orig.len() - out@.len()),
                out@.len() <= orig.len(),
                forall|i: int| 0 <= i < out@.len() ==> out@[i] == orig[orig.len() - 1 - i],
            decreases items@.len(),
        {
            let e = items.pop().unwrap();
            proof {
                assert(items@ =~= orig.subrange(0, orig.len() - out@.len() - 1));
            }
            out.push(e);
        }
        out
    }
}

/// Bottom-up metadata application.  The walk records each directory before
/// anything beneath it, so in the reversed application order everything
/// recorded after a directory — all the writes into it included — comes
/// strictly before the directory's own metadata is applied.  In particular
/// a directory's mode can no longer prevent writes into it.
pub proof fn lemma_bottom_up_applies_children_first(
    recorded: Seq<DirMetaEntry>,
    applied: Seq<DirMetaEntry>,
    i: int,
    j: int,
)
    requires
        applied.len() == recorded.len(),
        forall|k: int| 0 <= k < applied.len() ==> applied[k] == recorded[recorded.len() - 1 - k],
        0 <= i < j < recorded.len(),
    ensures
        applied[recorded.len() - 1 - j] == recorded[j],
        applied[recorded.len() - 1 - i] == recorded[i],
        recorded.len() - 1 - j < recorded.len() - 1 - i,
{
}

/// The ledger key of a file identity: device in the high 64 bits, inode in
/// the low.
pub open spec fn spec_key(dev: u64, ino: u64) -> u128 {
    ((dev as u128) * 0x1_0000_0000_0000_0000 + (ino as u128)) as u128
}

/// Distinct identities get distinct ledger keys.
pub proof fn lemma_key_injective(d1: u64, i1: u64, d2: u64, i2: u64)
    requires
        spec_key(d1, i1) == spec_key(d2, i2),
    ensures
        d1 == d2 && i1 == i2,
{
    assert(d1 == d2 && i1 == i2) by (nonlinear_arith)
        requires
            (d1 as int) * 0x1_0000_0000_0000_0000 + (i1 as int) == (d2 as int)
                * 0x1_0000_0000_0000_0000 + (i2 as int),
            i1 <= 0xffff_ffff_ffff_ffffu64,
            i2 <= 0xffff_ffff_ffff_ffffu64,
    ;
}

/// Whether this encounter must become a hard link to an already-copied
/// original.
pub open spec fn spec_links(m: Map<u128, Seq<u8>>, dev: u64, ino: u64, nlink: u64) -> bool {
    nlink > 1 && m.contains_key(spec_key(dev, ino))
}

/// How one encounter changes the ledger: the first hard-linked encounter of
/// an inode claims it; everything else leaves the ledger alone.
pub open spec fn spec_note_map(
    m: Map<u128, Seq<u8>>,
    dev: u64,
    ino: u64,
    nlink: u64,
    dest: Seq<u8>,
) -> Map<u128, Seq<u8>> {
    if nlink > 1 && !m.contains_key(spec_key(dev, ino)) {
        m.insert(spec_key(dev, ino), dest)
    } else {
        m
    }
}

/// What the walker does with one file after consulting the ledger.
#[derive(Clone, PartialEq, Eq, Debug)]
pub enum LinkDecision {
    /// Copy the data; if the file is hard-linked, this destination is now
    /// the inode's original.
    CopyAndRecord,
    /// Hard-link the destination to the original copied earlier.
    LinkTo(Vec<u8>),
}

/// The hard-link ledger: for every hard-linked inode met so far, the
/// destination path that received its one real data copy.
///
/// Under the parallel fan-out the caller serializes `note` behind a lock
/// and defers the `LinkTo` results until the workers have joined; the
/// decisions are the same, in lock-acquisition order.
pub struct HardLinkLedger {
    map: HashMap<u128, Vec<u8>>,
}

impl View for HardLinkLedger {
    type V = Map<u128, Seq<u8>>;

    closed spec fn view(&self) -> Map<u128, Seq<u8>> {
        self.map@.map_values(|v: Vec<u8>| v@)
    }
}

impl HardLinkLedger {
    /// An empty ledger.
    pub fn new() -> (r: HardLinkLedger)
        ensures
            r@ == Map::<u128, Seq<u8>>::empty(),
    {
        let map: HashMap<u128, Vec<u8>> = HashMap::new();
        proof {
            assert(map@.map_values(|v: Vec<u8>| v@) =~= Map::<u128, Seq<u8>>::empty());
        }
        HardLinkLedger { map }
    }

    /// Consult and update the ledger for one encountered file.
    ///
    /// Files with a single link are copied without being recorded.  The
    /// first encounter of a hard-linked inode is copied and recorded;
    /// every later encounter is linked to the recorded destination.
    pub fn note(&mut self, dev: u64, ino: u64, nlink: u64, dest: &[u8]) -> (r: LinkDecision)
        ensures
            final(self)@ == spec_note_map(old(self)@, dev, ino, nlink, dest@),
            match r {
                LinkDecision::CopyAndRecord => !spec_links(old(self)@, dev, ino, nlink),
                LinkDecision::LinkTo(p) => spec_links(old(self)@, dev, ino, nlink) && p@
                    == old(self)@[spec_key(dev, ino)],
            },
    {
        broadcast use vstd::std_specs::hash::group_hash_axioms;

        if nlink <= 1 {
            return LinkDecision::CopyAndRecord;
        }
        proof {
            assert((dev as int) * 0x1_0000_0000_0000_0000 + (ino as int) < 0x1_0000_0000_0000_0000_0000_0000_0000_0000)
                by (nonlinear_arith)
                requires
                    dev <= 0xffff_ffff_ffff_ffffu64,
                    ino <= 0xffff_ffff_ffff_ffffu64,
            ;
        }
        let key: u128 = (dev as u128) * 0x1_0000_0000_0000_0000 + (ino as u128);
        match self.map.get(&key) {
            Option::Some(first) => {
                let path = clone_bytes(first);
                proof {
                    assert(self@.contains_key(key) && self@[key] == first@);
                }
                LinkDecision::LinkTo(path)
            },
            Option::None => {
                proof {
                    assert(!self@.contains_key(key));
                }
                let copy = slice_to_vec(dest);
                let ghost before = self.map@;
                self.map.insert(key, copy);
                proof {
                    assert(self.map@.map_values(|v: Vec<u8>| v@) =~= before.map_values(
                        |v: Vec<u8>| v@,
                    ).insert(key, dest@));
                }
                LinkDecision::CopyAndRecord
            },
        }
    }
}

/// One file a recursive walk encounters, for reasoning about whole runs:
/// its identity, its link count, and the destination the walker gives it.
pub struct Encounter {
    pub dev: u64,
    pub ino: u64,
    pub nlink: u64,
    pub dest: Seq<u8>,
}

/// The ledger after a run of encounters, oldest first.
pub open spec fn ledger_after(es: Seq<Encounter>) -> Map<u128, Seq<u8>>
    decreases es.len(),
{
    if es.len() == 0 {
        Map::empty()
    } else {
        spec_note_map(
            ledger_after(es.drop_last()),
            es.last().dev,
            es.last().ino,
            es.last().nlink,
            es.last().dest,
        )
    }
}

proof fn lemma_ledger_absent(es: Seq<Encounter>, dev: u64, ino: u64, n: int)
    requires
        0 <= n <= es.len(),
        forall|k: int| 0 <= k < n ==> !(es[k].nlink > 1 && es[k].dev == dev && es[k].ino == ino),
    ensures
        !ledger_after(es.take(n)).contains_key(spec_key(dev, ino)),
    decreases n,
{
    if n == 0 {
        assert(es.take(0) =~= Seq::<Encounter>::empty());
    } else {
        lemma_ledger_absent(es, dev, ino, n - 1);
        let prefix = es.take(n);
        assert(prefix.drop_last() =~= es.take(n - 1));
        assert(prefix.last() == es[n - 1]);
        let last = es[n - 1];
        if last.nlink > 1 && !ledger_after(es.take(n - 1)).contains_key(
            spec_key(last.dev, last.ino),
        ) {
            if spec_key(last.dev, last.ino) == spec_key(dev, ino) {
                lemma_key_injective(last.dev, last.ino, dev, ino);
            }
        }
    }
}

proof fn lemma_ledger_stable(es: Seq<Encounter>, dev: u64, ino: u64, v: Seq<u8>, n: int, m: int)
    requires
        0 <= n <= m <= es.len(),
        ledger_after(es.take(n)).contains_key(spec_key(dev, ino)),
        ledger_after(es.take(n))[spec_key(dev, ino)] == v,
    ensures
        ledger_after(es.take(m)).contains_key(spec_key(dev, ino)),
        ledger_after(es.take(m))[spec_key(dev, ino)] == v,
    decreases m - n,
{
    if m > n {
        lemma_ledger_stable(es, dev, ino, v, n, m - 1);
        let prefix = es.take(m);
        assert(prefix.drop_last() =~= es.take(m - 1));
        assert(prefix.last() == es[m - 1]);
    }
}

/// Hard-link dedup.  In any run of encounters, take the first hard-linked
/// encounter `i` of an inode.  When a later encounter `j` of the same inode
/// consults the ledger, it finds exactly the destination recorded at `i`:
/// one destination per inode receives a data copy, and every later
/// encounter is linked to it.
pub proof fn lemma_hard_link_dedup(es: Seq<Encounter>, i: int, j: int)
    requires
        0 <= i < j < es.len(),
        es[i].nlink > 1,
        es[j].nlink > 1,
        es[i].dev == es[j].dev,
        es[i].ino == es[j].ino,
        forall|k: int| 0 <= k < i ==> !(es[k].nlink > 1 && es[k].dev == es[i].dev && es[k].ino
            == es[i].ino),
    ensures
        !spec_links(ledger_after(es.take(i)), es[i].dev, es[i].ino, es[i].nlink),
        spec_links(ledger_after(es.take(j)), es[j].dev, es[j].ino, es[j].nlink),
        ledger_after(es.take(j))[spec_key(es[j].dev, es[j].ino)] == es[i].dest,
{
    let dev = es[i].dev;
    let ino = es[i].ino;
    let key = spec_key(dev, ino);
    lemma_ledger_absent(es, dev, ino, i);
    let prefix = es.take(i + 1);
    assert(prefix.drop_last() =~= es.take(i));
    assert(prefix.last() == es[i]);
    assert(ledger_after(es.take(i + 1)) == ledger_after(es.take(i)).insert(key, es[i].dest));
    lemma_ledger_stable(es, dev, ino, es[i].dest, i + 1, j);
}

/// A walk destination under the slow path: the path relative to the walk
/// root, or nothing when `path` does not lie under `base`.
pub open spec fn spec_strip_prefix(path: Seq<u8>, base: Seq<u8>) -> Option<Seq<u8>> {
    if base.len() == 0 {
        Option::Some(path)
    } else if path == base {
        Option::Some(Seq::empty())
    } else if path.len() > base.len() && base.is_prefix_of(path) {
        if base.last() == SLASH {
            Option::Some(path.skip(base.len() as int))
        } else if path[base.len() as int] == SLASH {
            Option::Some(path.skip(base.len() as int + 1))
        } else {
            Option::None
        }
    } else {
        Option::None
    }
}

/// Strip the walk root from an entry's path.
pub fn path_strip_prefix(path: &[u8], base: &[u8]) -> (r: Option<Vec<u8>>)
    ensures
        match r {
            Option::Some(rel) => spec_strip_prefix(path@, base@) == Option::Some(rel@),
            Option::None => spec_strip_prefix(path@, base@) is None,
        },
{
    if base.len() == 0 {
        return Option::Some(slice_to_vec(path));
    }
    if path.len() == base.len() {
        if crate::bytes::bytes_eq(path, base) {
            let empty: Vec<u8> = Vec::new();
            proof {
                assert(empty@ =~= Seq::<u8>::empty());
            }
            return Option::Some(empty);
        }
        proof {
            if base@.is_prefix_of(path@) {
                assert(path@ =~= base@);
            }
        }
        return Option::None;
    }
    if path.len() > base.len() && starts_with_bytes(path, base) {
        if base[base.len() - 1] == SLASH {
            return Option::Some(slice_to_vec(slice_subrange(path, base.len(), path.len())));
        }
        if path[base.len()] == SLASH {
            return Option::Some(
                slice_to_vec(slice_subrange(path, base.len() + 1, path.len())),
            );
        }
        return Option::None;
    }
    proof {
        if path@.len() > base@.len() && base@.is_prefix_of(path@) {
            assert(starts_with_bytes.requires((path, base)));
        }
    }
    Option::None
}

} // verus!
