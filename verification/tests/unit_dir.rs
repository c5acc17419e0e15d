//! Tests of the walker's bookkeeping: entry classification, path choice,
//! the worker layout, the deferral list and the hard-link ledger.

use cp::cli::{Cli, UpdateMode};
use cp::copy::Timespec;
use cp::dir::{
    classify_dirent, mkdir_failure_fatal, mknod_failure_fatal, needs_dir_meta, needs_file_meta,
    path_strip_prefix, should_parallelize, skip_foreign_device, use_fast_path, worker_layout,
    DirMetaEntry, DirMetaList, EntryClass, HardLinkLedger, LinkDecision, StatSnapshot, DT_BLK,
    DT_CHR, DT_DIR, DT_FIFO, DT_LNK, DT_REG, DT_SOCK, MAX_WORKERS, PARALLEL_THRESHOLD,
};
use cp::options::CopyOptions;

fn base_opts() -> CopyOptions {
    let cli = Cli {
        archive: false,
        attributes_only: false,
        backup: None,
        simple_backup: false,
        copy_contents: false,
        no_deref_preserve_links: false,
        debug: false,
        force: false,
        interactive: false,
        dereference_args: false,
        hard_link: false,
        dereference: false,
        no_clobber: false,
        no_dereference: false,
        preserve_default: false,
        preserve: None,
        no_preserve: None,
        parents: false,
        recursive: true,
        reflink: None,
        remove_destination: false,
        sparse: None,
        strip_trailing_slashes: false,
        symbolic_link: false,
        suffix: None,
        target_directory: None,
        no_target_directory: false,
        update: None,
        progress: false,
        verbose: false,
        one_file_system: false,
        selinux_default: false,
        context: None,
        keep_directory_symlink: false,
        paths: vec![],
    };
    CopyOptions::from_cli(&cli, &None, &None)
}

#[test]
fn dirent_classification() {
    assert_eq!(classify_dirent(DT_REG, b"."), EntryClass::SkipDot);
    assert_eq!(classify_dirent(DT_DIR, b".."), EntryClass::SkipDot);
    assert_eq!(classify_dirent(DT_REG, b"...file"), EntryClass::Regular);
    assert_eq!(classify_dirent(DT_LNK, b"link"), EntryClass::Symlink);
    assert_eq!(classify_dirent(DT_DIR, b"sub"), EntryClass::Directory);
    assert_eq!(classify_dirent(DT_FIFO, b"pipe"), EntryClass::Special);
    assert_eq!(classify_dirent(DT_CHR, b"tty"), EntryClass::Special);
    assert_eq!(classify_dirent(DT_BLK, b"disk"), EntryClass::Special);
    assert_eq!(classify_dirent(DT_SOCK, b"sock"), EntryClass::SocketWarn);
    assert_eq!(classify_dirent(0, b"unknown"), EntryClass::Ignored);
}

#[test]
fn fast_path_choice() {
    let simple = base_opts();
    assert!(use_fast_path(&simple));
    let mut interactive = base_opts();
    interactive.interactive = true;
    assert!(!use_fast_path(&interactive));
    let mut update = base_opts();
    update.update = Some(UpdateMode::Older);
    assert!(!use_fast_path(&update));
    let mut follow = base_opts();
    follow.dereference = cp::options::Dereference::Always;
    assert!(!use_fast_path(&follow));
}

#[test]
fn metadata_need_flags() {
    let plain = base_opts();
    assert!(!needs_file_meta(&plain));
    assert!(!needs_dir_meta(&plain));
    let mut with_mode = base_opts();
    with_mode.preserve_mode = true;
    assert!(needs_file_meta(&with_mode));
    assert!(needs_dir_meta(&with_mode));
    let mut with_xattr = base_opts();
    with_xattr.preserve_xattr = true;
    assert!(needs_file_meta(&with_xattr));
    assert!(!needs_dir_meta(&with_xattr));
}

#[test]
fn one_file_system_filter() {
    assert!(skip_foreign_device(&Some(10), 11));
    assert!(!skip_foreign_device(&Some(10), 10));
    assert!(!skip_foreign_device(&None, 11));
}

#[test]
fn tolerated_errnos() {
    assert!(!mkdir_failure_fatal(17)); // EEXIST
    assert!(mkdir_failure_fatal(13)); // EACCES
    assert!(!mknod_failure_fatal(1)); // EPERM
    assert!(mknod_failure_fatal(28)); // ENOSPC
}

#[test]
fn parallel_threshold() {
    assert!(!should_parallelize(PARALLEL_THRESHOLD - 1));
    assert!(should_parallelize(PARALLEL_THRESHOLD));
}

#[test]
fn worker_layout_covers_all_files() {
    let (threads, chunk) = worker_layout(100, 16);
    assert_eq!(threads, MAX_WORKERS);
    assert_eq!(chunk, 13);
    assert!(chunk * threads >= 100);
    let (threads2, chunk2) = worker_layout(64, 4);
    assert_eq!(threads2, 4);
    assert_eq!(chunk2, 16);
    let (threads3, chunk3) = worker_layout(1, 8);
    assert_eq!(threads3, 8);
    assert_eq!(chunk3, 1);
}

#[test]
fn deferred_dir_metadata_applies_bottom_up() {
    // Recorded top-down: the root first, then its child, then a grandchild.
    let snap = StatSnapshot {
        mode: 0o755,
        uid: 0,
        gid: 0,
        atime: Timespec { sec: 0, nsec: 0 },
        mtime: Timespec { sec: 0, nsec: 0 },
    };
    let mut list = DirMetaList::new();
    list.record(DirMetaEntry { src: b"/s".to_vec(), dst: b"/d".to_vec(), stat: snap });
    list.record(DirMetaEntry { src: b"/s/a".to_vec(), dst: b"/d/a".to_vec(), stat: snap });
    list.record(DirMetaEntry { src: b"/s/a/b".to_vec(), dst: b"/d/a/b".to_vec(), stat: snap });
    assert_eq!(list.len(), 3);
    let order = list.into_bottom_up();
    assert_eq!(order[0].dst, b"/d/a/b".to_vec());
    assert_eq!(order[1].dst, b"/d/a".to_vec());
    assert_eq!(order[2].dst, b"/d".to_vec());
}

#[test]
fn ledger_dedups_hard_link_fan_out() {
    // One inode carrying many names: the first encounter copies, all
    // later ones link to the first destination.
    let mut ledger = HardLinkLedger::new();
    let first = ledger.note(7, 4242, 501, b"/dst/original");
    assert_eq!(first, LinkDecision::CopyAndRecord);
    for i in 0..500u32 {
        let name = format!("/dst/link_{:04}", i).into_bytes();
        let d = ledger.note(7, 4242, 501, &name);
        assert_eq!(d, LinkDecision::LinkTo(b"/dst/original".to_vec()));
    }
}

#[test]
fn ledger_keeps_inodes_apart() {
    let mut ledger = HardLinkLedger::new();
    assert_eq!(ledger.note(1, 10, 2, b"/d/a"), LinkDecision::CopyAndRecord);
    assert_eq!(ledger.note(1, 11, 2, b"/d/b"), LinkDecision::CopyAndRecord);
    assert_eq!(ledger.note(2, 10, 2, b"/d/c"), LinkDecision::CopyAndRecord);
    assert_eq!(ledger.note(1, 10, 2, b"/d/a2"), LinkDecision::LinkTo(b"/d/a".to_vec()));
    assert_eq!(ledger.note(2, 10, 2, b"/d/c2"), LinkDecision::LinkTo(b"/d/c".to_vec()));
}

#[test]
fn ledger_ignores_singly_linked_files() {
    let mut ledger = HardLinkLedger::new();
    assert_eq!(ledger.note(1, 10, 1, b"/d/a"), LinkDecision::CopyAndRecord);
    // the same identity again: it was never recorded
    assert_eq!(ledger.note(1, 10, 1, b"/d/b"), LinkDecision::CopyAndRecord);
}

#[test]
fn strip_prefix_for_walk_destinations() {
    assert_eq!(path_strip_prefix(b"/src/a/b", b"/src"), Some(b"a/b".to_vec()));
    assert_eq!(path_strip_prefix(b"/src", b"/src"), Some(b"".to_vec()));
    assert_eq!(path_strip_prefix(b"/srcfile", b"/src"), None);
    assert_eq!(path_strip_prefix(b"/src/a", b"/src/"), Some(b"a".to_vec()));
    assert_eq!(path_strip_prefix(b"/other/a", b"/src"), None);
}
