//! Tests of backup naming and the backup decision.

use cp::backup::{
    has_numbered_backups, is_numbered_backup_of, make_backup_decision, numbered_backup_path,
    simple_backup_path, BackupStyle,
};
use cp::options::BackupMode;

#[test]
fn simple_backup_appends_suffix() {
    assert_eq!(simple_backup_path(b"/tmp/dst", b"~"), b"/tmp/dst~".to_vec());
    assert_eq!(simple_backup_path(b"/tmp/dst", b".orig"), b"/tmp/dst.orig".to_vec());
}

#[test]
fn numbered_backup_names() {
    assert_eq!(numbered_backup_path(b"dst", 1), b"dst.~1~".to_vec());
    assert_eq!(numbered_backup_path(b"dst", 2), b"dst.~2~".to_vec());
    assert_eq!(numbered_backup_path(b"dst", 3), b"dst.~3~".to_vec());
    assert_eq!(numbered_backup_path(b"/a/b.txt", 12), b"/a/b.txt.~12~".to_vec());
    assert_eq!(numbered_backup_path(b"x", 1004), b"x.~1004~".to_vec());
}

#[test]
fn numbered_backup_sequence() {
    // Three successive numbered backups of one destination take the next
    // free number each time.
    let first = numbered_backup_path(b"dst", 1);
    let second = numbered_backup_path(b"dst", 2);
    let third = numbered_backup_path(b"dst", 3);
    assert_eq!(first, b"dst.~1~".to_vec());
    assert_eq!(second, b"dst.~2~".to_vec());
    assert_eq!(third, b"dst.~3~".to_vec());
    assert_ne!(first, second);
    assert_ne!(second, third);
}

#[test]
fn numbered_backup_shape_is_recognized() {
    assert!(is_numbered_backup_of(b"dst", b"dst.~1~"));
    assert!(is_numbered_backup_of(b"dst", b"dst.~44~"));
    assert!(!is_numbered_backup_of(b"dst", b"dst~"));
    assert!(!is_numbered_backup_of(b"dst", b"other.~1~"));
    assert!(!is_numbered_backup_of(b"dst", b"dst.~1~.tmp"));
}

#[test]
fn has_numbered_backups_scans_listing() {
    let entries = vec![b"a".to_vec(), b"dst".to_vec(), b"dst.~7~".to_vec()];
    assert!(has_numbered_backups(b"dst", &entries));
    let clean = vec![b"a".to_vec(), b"dst".to_vec(), b"dst~".to_vec()];
    assert!(!has_numbered_backups(b"dst", &clean));
}

#[test]
fn backup_decision_modes() {
    assert_eq!(make_backup_decision(BackupMode::Off, true, false), None);
    assert_eq!(make_backup_decision(BackupMode::Simple, true, false), Some(BackupStyle::Simple));
    assert_eq!(
        make_backup_decision(BackupMode::Numbered, true, false),
        Some(BackupStyle::Numbered)
    );
    assert_eq!(
        make_backup_decision(BackupMode::Existing, true, true),
        Some(BackupStyle::Numbered)
    );
    assert_eq!(
        make_backup_decision(BackupMode::Existing, true, false),
        Some(BackupStyle::Simple)
    );
}

#[test]
fn backup_decision_needs_existing_dest() {
    assert_eq!(make_backup_decision(BackupMode::Numbered, false, false), None);
    assert_eq!(make_backup_decision(BackupMode::Simple, false, true), None);
}
