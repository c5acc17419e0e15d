//! Tests of the per-file copy policy.

use cp::cli::{Cli, ReflinkMode, SparseMode, UpdateMode};
use cp::copy::{
    device_node_mode, dispatch_file_type, is_simple_opts, preflight, regular_plan,
    special_file_mode, ts_ge, DestState, FileKind, GoPlan, Preflight, PreflightError,
    RegularPlan, Timespec, SPARSE_THRESHOLD, S_IFBLK, S_IFCHR,
};
use cp::options::{BackupMode, CopyOptions};
use cp::util::FileId;

fn base_opts() -> CopyOptions {
    let cli = Cli {
        archive: false,
        attributes_only: false,
        backup: None,
        simple_backup: false,
        copy_contents: false,
        no_deref_preserve_links: false,
        debug: false,
        force: false,
        interactive: false,
        dereference_args: false,
        hard_link: false,
        dereference: false,
        no_clobber: false,
        no_dereference: false,
        preserve_default: false,
        preserve: None,
        no_preserve: None,
        parents: false,
        recursive: false,
        reflink: None,
        remove_destination: false,
        sparse: None,
        strip_trailing_slashes: false,
        symbolic_link: false,
        suffix: None,
        target_directory: None,
        no_target_directory: false,
        update: None,
        progress: false,
        verbose: false,
        one_file_system: false,
        selinux_default: false,
        context: None,
        keep_directory_symlink: false,
        paths: vec![],
    };
    CopyOptions::from_cli(&cli, &None, &None)
}

fn ts(sec: i64) -> Timespec {
    Timespec { sec, nsec: 0 }
}

fn existing_dst(mtime: Timespec) -> DestState {
    DestState { exists: true, is_symlink: false, resolves: true, mtime }
}

fn absent_dst() -> DestState {
    DestState { exists: false, is_symlink: false, resolves: false, mtime: ts(0) }
}

#[test]
fn simple_opts_flag_by_flag() {
    let o = base_opts();
    assert!(is_simple_opts(&o));
    let mut o2 = base_opts();
    o2.interactive = true;
    assert!(!is_simple_opts(&o2));
    let mut o3 = base_opts();
    o3.update = Some(UpdateMode::Older);
    assert!(!is_simple_opts(&o3));
    let mut o4 = base_opts();
    o4.backup = BackupMode::Simple;
    assert!(!is_simple_opts(&o4));
    let mut o5 = base_opts();
    o5.hard_link = true;
    assert!(!is_simple_opts(&o5));
}

#[test]
fn update_older_skips_newer_destination() {
    // Source written long ago, destination current: nothing to do.
    let mut o = base_opts();
    o.update = Some(UpdateMode::Older);
    let dst = existing_dst(ts(1_700_000_000));
    let r = preflight(&o, &dst, &None, &None, &ts(1_000_000));
    assert_eq!(r, Preflight::Skip);
}

#[test]
fn update_older_copies_newer_source() {
    let mut o = base_opts();
    o.update = Some(UpdateMode::Older);
    let dst = existing_dst(ts(1_000_000));
    let r = preflight(&o, &dst, &None, &None, &ts(1_700_000_000));
    assert!(matches!(r, Preflight::Go(_)));
}

#[test]
fn update_older_equal_times_skip() {
    let mut o = base_opts();
    o.update = Some(UpdateMode::Older);
    let dst = existing_dst(ts(5));
    let r = preflight(&o, &dst, &None, &None, &ts(5));
    assert_eq!(r, Preflight::Skip);
}

#[test]
fn update_none_skips_existing() {
    let mut o = base_opts();
    o.update = Some(UpdateMode::Skip);
    let r = preflight(&o, &existing_dst(ts(0)), &None, &None, &ts(100));
    assert_eq!(r, Preflight::Skip);
    let r2 = preflight(&o, &absent_dst(), &None, &None, &ts(100));
    assert!(matches!(r2, Preflight::Go(_)));
}

#[test]
fn same_file_is_refused() {
    let o = base_opts();
    let id = Some(FileId { dev: 3, ino: 99 });
    let r = preflight(&o, &existing_dst(ts(0)), &id, &id, &ts(0));
    assert_eq!(r, Preflight::Fail(PreflightError::SameFile));
}

#[test]
fn distinct_files_pass_same_file_check() {
    let o = base_opts();
    let a = Some(FileId { dev: 3, ino: 99 });
    let b = Some(FileId { dev: 3, ino: 100 });
    let r = preflight(&o, &existing_dst(ts(0)), &a, &b, &ts(1));
    assert!(matches!(r, Preflight::Go(_)));
}

#[test]
fn dangling_symlink_destination_is_refused() {
    let o = base_opts();
    let dst = DestState { exists: true, is_symlink: true, resolves: false, mtime: ts(0) };
    let r = preflight(&o, &dst, &None, &None, &ts(0));
    assert_eq!(r, Preflight::Fail(PreflightError::DanglingSymlink));
}

#[test]
fn force_allows_dangling_symlink_destination() {
    let mut o = base_opts();
    o.force = true;
    let dst = DestState { exists: true, is_symlink: true, resolves: false, mtime: ts(0) };
    let r = preflight(&o, &dst, &None, &None, &ts(0));
    assert!(matches!(r, Preflight::Go(_)));
}

#[test]
fn no_clobber_skips_existing() {
    let mut o = base_opts();
    o.no_clobber = true;
    let r = preflight(&o, &existing_dst(ts(0)), &None, &None, &ts(1));
    assert_eq!(r, Preflight::Skip);
    let r2 = preflight(&o, &absent_dst(), &None, &None, &ts(1));
    assert!(matches!(r2, Preflight::Go(_)));
}

#[test]
fn interactive_asks_before_overwrite() {
    let mut o = base_opts();
    o.interactive = true;
    let r = preflight(&o, &existing_dst(ts(0)), &None, &None, &ts(1));
    assert_eq!(
        r,
        Preflight::Go(GoPlan {
            ask_overwrite: true,
            backup: BackupMode::Off,
            remove_destination: false,
        })
    );
}

#[test]
fn backup_and_removal_reach_the_plan() {
    let mut o = base_opts();
    o.backup = BackupMode::Numbered;
    o.remove_destination = true;
    let r = preflight(&o, &existing_dst(ts(0)), &None, &None, &ts(1));
    assert_eq!(
        r,
        Preflight::Go(GoPlan {
            ask_overwrite: false,
            backup: BackupMode::Numbered,
            remove_destination: true,
        })
    );
    // nothing to back up or remove when the destination is absent
    let r2 = preflight(&o, &absent_dst(), &None, &None, &ts(1));
    assert_eq!(
        r2,
        Preflight::Go(GoPlan {
            ask_overwrite: false,
            backup: BackupMode::Off,
            remove_destination: false,
        })
    );
}

#[test]
fn file_type_dispatch() {
    assert_eq!(
        dispatch_file_type(FileKind::Symlink, false),
        cp::copy::TypeAction::RecreateSymlink
    );
    assert_eq!(
        dispatch_file_type(FileKind::Directory, false),
        cp::copy::TypeAction::FailOmitDirectory
    );
    assert_eq!(dispatch_file_type(FileKind::Regular, true), cp::copy::TypeAction::CopyRegular);
    assert_eq!(dispatch_file_type(FileKind::Fifo, false), cp::copy::TypeAction::MakeFifo);
    assert_eq!(
        dispatch_file_type(FileKind::BlockDevice, false),
        cp::copy::TypeAction::MakeDevice { block: true }
    );
    assert_eq!(
        dispatch_file_type(FileKind::CharDevice, false),
        cp::copy::TypeAction::MakeDevice { block: false }
    );
    assert_eq!(
        dispatch_file_type(FileKind::Socket, false),
        cp::copy::TypeAction::WarnSocketSkip
    );
}

#[test]
fn regular_plan_branches() {
    let o = base_opts();
    assert_eq!(regular_plan(&o, 0), RegularPlan::Empty);
    assert_eq!(regular_plan(&o, SPARSE_THRESHOLD - 1), RegularPlan::Dense);
    assert_eq!(
        regular_plan(&o, SPARSE_THRESHOLD),
        RegularPlan::TrySparse(SparseMode::Auto)
    );
    let mut never = base_opts();
    never.sparse = SparseMode::Never;
    assert_eq!(regular_plan(&never, 100 * 1024 * 1024), RegularPlan::Dense);
    let mut hl = base_opts();
    hl.hard_link = true;
    assert_eq!(regular_plan(&hl, 5), RegularPlan::HardLink);
    let mut sl = base_opts();
    sl.symbolic_link = true;
    assert_eq!(regular_plan(&sl, 5), RegularPlan::SymbolicLink);
    let mut ao = base_opts();
    ao.attributes_only = true;
    assert_eq!(regular_plan(&ao, 5), RegularPlan::AttributesOnly);
}

#[test]
fn reflink_mode_carried_into_options() {
    let mut o = base_opts();
    o.reflink = ReflinkMode::Always;
    assert_eq!(o.reflink, ReflinkMode::Always);
}

#[test]
fn special_mode_masks_low_bits() {
    assert_eq!(special_file_mode(0o100644), 0o644);
    assert_eq!(special_file_mode(0o020660), 0o660);
    assert_eq!(special_file_mode(0o7777), 0o7777);
}

#[test]
fn device_node_mode_combines_type_and_permissions() {
    assert_eq!(device_node_mode(true, 0o060660), S_IFBLK + 0o660);
    assert_eq!(device_node_mode(false, 0o020644), S_IFCHR + 0o644);
}

#[test]
fn timestamp_ordering() {
    assert!(ts_ge(&ts(10), &ts(9)));
    assert!(ts_ge(&ts(10), &ts(10)));
    assert!(!ts_ge(&ts(9), &ts(10)));
    let a = Timespec { sec: 5, nsec: 100 };
    let b = Timespec { sec: 5, nsec: 99 };
    assert!(ts_ge(&a, &b));
    assert!(!ts_ge(&b, &a));
}
