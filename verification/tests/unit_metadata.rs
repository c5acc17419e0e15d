//! Tests of the metadata propagation order and failure classification.

use cp::cli::Cli;
use cp::metadata::{
    acl_read_error_disables, acl_write_error_disables, classify_chown_errno,
    classify_xattr_errno, dir_metadata_plan, metadata_plan, MetaErrAction, MetaStep, EACCES,
    ENOTSUP, EPERM,
};
use cp::options::CopyOptions;

fn base_opts() -> CopyOptions {
    let cli = Cli {
        archive: false,
        attributes_only: false,
        backup: None,
        simple_backup: false,
        copy_contents: false,
        no_deref_preserve_links: false,
        debug: false,
        force: false,
        interactive: false,
        dereference_args: false,
        hard_link: false,
        dereference: false,
        no_clobber: false,
        no_dereference: false,
        preserve_default: false,
        preserve: None,
        no_preserve: None,
        parents: false,
        recursive: false,
        reflink: None,
        remove_destination: false,
        sparse: None,
        strip_trailing_slashes: false,
        symbolic_link: false,
        suffix: None,
        target_directory: None,
        no_target_directory: false,
        update: None,
        progress: false,
        verbose: false,
        one_file_system: false,
        selinux_default: false,
        context: None,
        keep_directory_symlink: false,
        paths: vec![],
    };
    CopyOptions::from_cli(&cli, &None, &None)
}

fn all_preserving() -> CopyOptions {
    let mut o = base_opts();
    o.preserve_mode = true;
    o.preserve_ownership = true;
    o.preserve_timestamps = true;
    o.preserve_xattr = true;
    o.preserve_acl = true;
    o
}

#[test]
fn full_plan_keeps_the_fixed_order() {
    let o = all_preserving();
    let plan = metadata_plan(&o, false, true, true, true);
    assert_eq!(
        plan,
        vec![
            MetaStep::CopyXattrs,
            MetaStep::Chown,
            MetaStep::Chmod,
            MetaStep::SetTimes,
            MetaStep::CopyAcl { restore_mode: false },
        ]
    );
}

#[test]
fn unprivileged_caller_never_attempts_chown() {
    let o = all_preserving();
    let plan = metadata_plan(&o, false, false, true, true);
    assert!(!plan.contains(&MetaStep::Chown));
    assert!(plan.contains(&MetaStep::Chmod));
}

#[test]
fn symlink_gets_no_chmod() {
    let o = all_preserving();
    let plan = metadata_plan(&o, true, true, true, true);
    assert!(!plan.contains(&MetaStep::Chmod));
    assert!(plan.contains(&MetaStep::SetTimes));
}

#[test]
fn acl_without_mode_restores_the_mode() {
    let mut o = base_opts();
    o.preserve_acl = true;
    let plan = metadata_plan(&o, false, false, true, true);
    assert_eq!(plan, vec![MetaStep::CopyAcl { restore_mode: true }]);
}

#[test]
fn latched_off_families_are_skipped() {
    let o = all_preserving();
    let plan = metadata_plan(&o, false, true, false, false);
    assert_eq!(plan, vec![MetaStep::Chown, MetaStep::Chmod, MetaStep::SetTimes]);
}

#[test]
fn directory_plan_order() {
    let o = all_preserving();
    let plan = dir_metadata_plan(&o);
    assert_eq!(plan, vec![MetaStep::Chown, MetaStep::Chmod, MetaStep::SetTimes]);
    let mut t = base_opts();
    t.preserve_timestamps = true;
    assert_eq!(dir_metadata_plan(&t), vec![MetaStep::SetTimes]);
}

#[test]
fn xattr_failures_classified() {
    assert_eq!(classify_xattr_errno(ENOTSUP), MetaErrAction::DisableSupport);
    assert_eq!(classify_xattr_errno(EPERM), MetaErrAction::Ignore);
    assert_eq!(classify_xattr_errno(EACCES), MetaErrAction::Ignore);
    assert_eq!(classify_xattr_errno(28), MetaErrAction::Fail);
}

#[test]
fn chown_failures_classified() {
    assert_eq!(classify_chown_errno(EPERM), MetaErrAction::Ignore);
    assert_eq!(classify_chown_errno(EACCES), MetaErrAction::Fail);
}

#[test]
fn acl_messages_classified() {
    assert!(acl_read_error_disables(b"Operation not supported"));
    assert!(acl_read_error_disables(b"No data available"));
    assert!(!acl_read_error_disables(b"Permission denied"));
    assert!(acl_write_error_disables(b"ACL write failed: not supported here"));
    assert!(!acl_write_error_disables(b"No data available"));
}
