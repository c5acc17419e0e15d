//! Backup-file naming: simple suffixes, numbered backups, and the choice
//! between them.

use vstd::prelude::*;
use vstd::slice::slice_to_vec;
use crate::bytes::{append_bytes, contains_seq, contains_bytes, dec_digits, ends_with_bytes,
    starts_with_bytes, u64_to_dec, DOT, TILDE};
use crate::options::BackupMode;

verus! {

/// The flavour of backup chosen for one destination.
#[derive(Clone, Copy, PartialEq, Eq, Structural, Debug)]
pub enum BackupStyle {
    Simple,
    Numbered,
}

/// The name of a simple backup: the destination with the suffix appended.
pub fn simple_backup_path(dest: &[u8], suffix: &[u8]) -> (r: Vec<u8>)
    ensures
        r@ == dest@ + suffix@,
{
    let mut v = slice_to_vec(dest);
    append_bytes(&mut v, suffix);
    v
}

/// The name of the numbered backup `N` of a destination:
/// the destination followed by `.~N~`.
pub open spec fn spec_numbered_backup_path(dest: Seq<u8>, n: nat) -> Seq<u8> {
    dest + seq![DOT, TILDE] + dec_digits(n) + seq![TILDE]
}

/// Build the name of numbered backup `n`.
pub fn numbered_backup_path(dest: &[u8], n: u64) -> (r: Vec<u8>)
    ensures
        r@ == spec_numbered_backup_path(dest@, n as nat),
{
    let mut v = slice_to_vec(dest);
    v.push(DOT);
    v.push(TILDE);
    let digits = u64_to_dec(n);
    append_bytes(&mut v, digits.as_slice());
    v.push(TILDE);
    proof {
        assert(v@ =~= spec_numbered_backup_path(dest@, n as nat));
    }
    v
}

/// Does `entry` look like a numbered backup of a file called `name`?
/// It must start with the name, contain `.~` and end in `~`.
pub open spec fn spec_is_numbered_backup_of(name: Seq<u8>, entry: Seq<u8>) -> bool {
    name.is_prefix_of(entry) && contains_seq(entry, seq![DOT, TILDE]) && entry.len() > 0
        && entry.last() == TILDE
}

/// Test one directory entry against the numbered-backup shape.
pub fn is_numbered_backup_of(name: &[u8], entry: &[u8]) -> (r: bool)
    ensures
        r == spec_is_numbered_backup_of(name@, entry@),
{
    let marker: [u8; 2] = [DOT, TILDE];
    let tilde: [u8; 1] = [TILDE];
    proof {
        assert(marker@ =~= seq![DOT, TILDE]);
        assert(tilde@ =~= seq![TILDE]);
    }
    let r = starts_with_bytes(entry, name) && contains_bytes(entry, marker.as_slice())
        && ends_with_bytes(entry, tilde.as_slice());
    proof {
        if entry@.len() > 0 {
            assert(seq![TILDE].is_suffix_of(entry@) == (entry@.last() == TILDE)) by {
                assert(entry@.subrange(entry@.len() - 1, entry@.len() as int)
                    =~= seq![entry@.last()]);
                if entry@.last() == TILDE {
                    assert(entry@.subrange(entry@.len() - 1, entry@.len() as int)
                        =~= seq![TILDE]);
                }
            }
        }
    }
    r
}

/// Does the directory listing hold a numbered backup of a file called
/// `name`?
pub fn has_numbered_backups(name: &[u8], entries: &Vec<Vec<u8>>) -> (r: bool)
    ensures
        r == exists|i: int|
            0 <= i < entries@.len() && spec_is_numbered_backup_of(name@, entries@[i]@),
{
    let mut i: usize = 0;
    while i < entries.len()
        invariant
            0 <= i <= entries@.len(),
            forall|j: int| 0 <= j < i ==> !spec_is_numbered_backup_of(name@, entries@[j]@),
        decreases entries@.len() - i,
    {
        if is_numbered_backup_of(name, entries[i].as_slice()) {
            proof {
                assert((i as int) < entries@.len()
                    && spec_is_numbered_backup_of(name@, entries@[i as int]@));
            }
            return true;
        }
        i += 1;
    }
    false
}

/// Which backup, if any, an existing destination receives: none when the
/// mode is off or the destination is absent; otherwise the mode's own style,
/// where `Existing` picks numbered exactly when numbered backups are already
/// present.
pub open spec fn spec_backup_style(
    mode: BackupMode,
    dest_exists: bool,
    has_numbered: bool,
) -> Option<BackupStyle> {
    if !dest_exists {
        Option::None
    } else {
        match mode {
            BackupMode::Off => Option::None,
            BackupMode::Simple => Option::Some(BackupStyle::Simple),
            BackupMode::Numbered => Option::Some(BackupStyle::Numbered),
            BackupMode::Existing => if has_numbered {
                Option::Some(BackupStyle::Numbered)
            } else {
                Option::Some(BackupStyle::Simple)
            },
        }
    }
}

/// Decide whether and how to back up a destination.
pub fn make_backup_decision(
    mode: BackupMode,
    dest_exists: bool,
    has_numbered: bool,
) -> (r: Option<BackupStyle>)
    ensures
        r == spec_backup_style(mode, dest_exists, has_numbered),
{
    if !dest_exists {
        return Option::None;
    }
    match mode {
        BackupMode::Off => Option::None,
        BackupMode::Simple => Option::Some(BackupStyle::Simple),
        BackupMode::Numbered => Option::Some(BackupStyle::Numbered),
        BackupMode::Existing => if has_numbered {
            Option::Some(BackupStyle::Numbered)
        } else {
            Option::Some(BackupStyle::Simple)
        },
    }
}

} // verus!
