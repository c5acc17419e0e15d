//! Tests of option resolution from the parsed command line.

use cp::cli::{Cli, ReflinkMode, SparseMode, UpdateMode};
use cp::options::{parse_backup_control, BackupMode, CopyOptions, Dereference};

fn base_cli() -> Cli {
    Cli {
        archive: false,
        attributes_only: false,
        backup: None,
        simple_backup: false,
        copy_contents: false,
        no_deref_preserve_links: false,
        debug: false,
        force: false,
        interactive: false,
        dereference_args: false,
        hard_link: false,
        dereference: false,
        no_clobber: false,
        no_dereference: false,
        preserve_default: false,
        preserve: None,
        no_preserve: None,
        parents: false,
        recursive: false,
        reflink: None,
        remove_destination: false,
        sparse: None,
        strip_trailing_slashes: false,
        symbolic_link: false,
        suffix: None,
        target_directory: None,
        no_target_directory: false,
        update: None,
        progress: false,
        verbose: false,
        one_file_system: false,
        selinux_default: false,
        context: None,
        keep_directory_symlink: false,
        paths: vec![],
    }
}

fn resolve(cli: &Cli) -> CopyOptions {
    CopyOptions::from_cli(cli, &None, &None)
}

#[test]
fn opts_archive_enables_everything() {
    let mut cli = base_cli();
    cli.archive = true;
    let o = resolve(&cli);
    assert!(o.recursive);
    assert!(o.preserve_mode);
    assert!(o.preserve_ownership);
    assert!(o.preserve_timestamps);
    assert!(o.preserve_links);
    assert!(o.preserve_xattr);
    assert!(!o.preserve_acl);
    assert_eq!(o.dereference, Dereference::Never);
}

#[test]
fn opts_preserve_then_no_preserve() {
    let mut cli = base_cli();
    cli.preserve = Some(vec![b"mode".to_vec()]);
    cli.no_preserve = Some(vec![b"mode".to_vec()]);
    let o = resolve(&cli);
    assert!(!o.preserve_mode);
}

#[test]
fn opts_no_preserve_all() {
    let mut cli = base_cli();
    cli.preserve = Some(vec![b"all".to_vec()]);
    cli.no_preserve = Some(vec![b"all".to_vec()]);
    let o = resolve(&cli);
    assert!(!o.preserve_mode);
    assert!(!o.preserve_ownership);
    assert!(!o.preserve_timestamps);
    assert!(!o.preserve_links);
    assert!(!o.preserve_xattr);
    assert!(!o.preserve_acl);
}

#[test]
fn opts_preserve_all_no_preserve_mode() {
    let mut cli = base_cli();
    cli.preserve = Some(vec![b"all".to_vec()]);
    cli.no_preserve = Some(vec![b"mode".to_vec()]);
    let o = resolve(&cli);
    assert!(!o.preserve_mode);
    assert!(o.preserve_timestamps);
    assert!(o.preserve_ownership);
    assert!(o.preserve_acl);
}

#[test]
fn opts_preserve_unknown_attr_ignored() {
    let mut cli = base_cli();
    cli.preserve = Some(vec![b"foobar".to_vec()]);
    let o = resolve(&cli);
    assert!(!o.preserve_mode);
    assert!(!o.preserve_ownership);
    assert!(!o.preserve_acl);
}

#[test]
fn opts_preserve_acl_only_when_asked() {
    let mut cli = base_cli();
    cli.preserve = Some(vec![b"acl".to_vec()]);
    let o = resolve(&cli);
    assert!(o.preserve_acl);
    assert!(!o.preserve_mode);
}

#[test]
fn opts_dereference_default_follows() {
    let cli = base_cli();
    let o = resolve(&cli);
    assert_eq!(o.dereference, Dereference::CommandLine);
}

#[test]
fn opts_dereference_r_default_p() {
    let mut cli = base_cli();
    cli.recursive = true;
    let o = resolve(&cli);
    assert_eq!(o.dereference, Dereference::Never);
}

#[test]
fn opts_dereference_l_follows_all() {
    let mut cli = base_cli();
    cli.recursive = true;
    cli.dereference = true;
    let o = resolve(&cli);
    assert_eq!(o.dereference, Dereference::Always);
}

#[test]
fn opts_dereference_h_cli_only() {
    let mut cli = base_cli();
    cli.recursive = true;
    cli.dereference_args = true;
    let o = resolve(&cli);
    assert_eq!(o.dereference, Dereference::CommandLine);
}

#[test]
fn opts_d_flag_never_follows_and_keeps_links() {
    let mut cli = base_cli();
    cli.no_deref_preserve_links = true;
    let o = resolve(&cli);
    assert_eq!(o.dereference, Dereference::Never);
    assert!(o.preserve_links);
}

#[test]
fn opts_version_control_env() {
    let mut cli = base_cli();
    cli.simple_backup = true;
    let o = CopyOptions::from_cli(&cli, &Some(b"numbered".to_vec()), &None);
    assert_eq!(o.backup, BackupMode::Numbered);
}

#[test]
fn opts_simple_backup_without_env_is_simple() {
    let mut cli = base_cli();
    cli.simple_backup = true;
    let o = resolve(&cli);
    assert_eq!(o.backup, BackupMode::Simple);
}

#[test]
fn opts_explicit_backup_control_wins() {
    let mut cli = base_cli();
    cli.backup = Some(b"simple".to_vec());
    let o = CopyOptions::from_cli(&cli, &Some(b"numbered".to_vec()), &None);
    assert_eq!(o.backup, BackupMode::Simple);
}

#[test]
fn opts_simple_backup_suffix_env() {
    let cli = base_cli();
    let o = CopyOptions::from_cli(&cli, &None, &Some(b".orig".to_vec()));
    assert_eq!(o.backup_suffix, b".orig".to_vec());
}

#[test]
fn opts_suffix_flag_beats_env() {
    let mut cli = base_cli();
    cli.suffix = Some(b".bak".to_vec());
    let o = CopyOptions::from_cli(&cli, &None, &Some(b".orig".to_vec()));
    assert_eq!(o.backup_suffix, b".bak".to_vec());
}

#[test]
fn opts_default_suffix_is_tilde() {
    let cli = base_cli();
    let o = resolve(&cli);
    assert_eq!(o.backup_suffix, b"~".to_vec());
}

#[test]
fn opts_no_clobber_overrides_interactive() {
    let mut cli = base_cli();
    cli.no_clobber = true;
    cli.interactive = true;
    let o = resolve(&cli);
    assert!(o.no_clobber);
    assert!(!o.interactive);
}

#[test]
fn opts_sparse_default_auto() {
    let cli = base_cli();
    let o = resolve(&cli);
    assert_eq!(o.sparse, SparseMode::Auto);
}

#[test]
fn opts_reflink_default_auto() {
    let cli = base_cli();
    let o = resolve(&cli);
    assert_eq!(o.reflink, ReflinkMode::Auto);
}

#[test]
fn opts_debug_implies_verbose() {
    let mut cli = base_cli();
    cli.debug = true;
    let o = resolve(&cli);
    assert!(o.verbose);
    assert!(o.debug);
}

#[test]
fn opts_update_carried_through() {
    let mut cli = base_cli();
    cli.update = Some(UpdateMode::Older);
    let o = resolve(&cli);
    assert_eq!(o.update, Some(UpdateMode::Older));
}

#[test]
fn backup_control_words() {
    assert_eq!(parse_backup_control(b"none"), BackupMode::Off);
    assert_eq!(parse_backup_control(b"off"), BackupMode::Off);
    assert_eq!(parse_backup_control(b"numbered"), BackupMode::Numbered);
    assert_eq!(parse_backup_control(b"t"), BackupMode::Numbered);
    assert_eq!(parse_backup_control(b"existing"), BackupMode::Existing);
    assert_eq!(parse_backup_control(b"nil"), BackupMode::Existing);
    assert_eq!(parse_backup_control(b"simple"), BackupMode::Simple);
    assert_eq!(parse_backup_control(b"never"), BackupMode::Simple);
    assert_eq!(parse_backup_control(b"gibberish"), BackupMode::Existing);
}
