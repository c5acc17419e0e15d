//! Resolution of the parsed command line into the options record that the
//! copy logic consumes.

use vstd::prelude::*;
use crate::bytes::{bytes_eq, clone_bytes, TILDE};
use crate::cli::{Cli, ReflinkMode, SparseMode, UpdateMode};

verus! {

/// Symlink-follow policy for a source operand.
#[derive(Clone, Copy, PartialEq, Eq, Structural, Debug)]
pub enum Dereference {
    /// Never follow symlinks (`-P`, the default under `-R`).
    Never,
    /// Follow symlinks named on the command line only (`-H`).
    CommandLine,
    /// Always follow symlinks (`-L`).
    Always,
}

/// Backup policy for an existing destination.
///
/// `Off` stands for the `none` / `off` controls.
#[derive(Clone, Copy, PartialEq, Eq, Structural, Debug)]
pub enum BackupMode {
    Off,
    Numbered,
    Existing,
    Simple,
}

/// The resolved options record, consumed read-only by the copy logic.
#[derive(Clone, Debug)]
pub struct CopyOptions {
    pub recursive: bool,
    pub force: bool,
    pub interactive: bool,
    pub no_clobber: bool,
    pub verbose: bool,
    pub debug: bool,
    pub progress: bool,
    pub hard_link: bool,
    pub symbolic_link: bool,
    pub attributes_only: bool,
    pub remove_destination: bool,
    pub strip_trailing_slashes: bool,
    pub one_file_system: bool,
    pub parents: bool,
    pub no_target_directory: bool,
    pub target_directory: Option<Vec<u8>>,
    pub dereference: Dereference,
    pub preserve_mode: bool,
    pub preserve_ownership: bool,
    pub preserve_timestamps: bool,
    pub preserve_links: bool,
    pub preserve_xattr: bool,
    pub preserve_acl: bool,
    pub reflink: ReflinkMode,
    pub sparse: SparseMode,
    pub update: Option<UpdateMode>,
    pub backup: BackupMode,
    pub backup_suffix: Vec<u8>,
}

// Attribute names accepted by `--preserve` / `--no-preserve`.
pub const KW_MODE: [u8; 4] = [109, 111, 100, 101];  // "mode"
pub const KW_OWNERSHIP: [u8; 9] = [111, 119, 110, 101, 114, 115, 104, 105, 112];  // "ownership"
pub const KW_TIMESTAMPS: [u8; 10] = [116, 105, 109, 101, 115, 116, 97, 109, 112, 115];  // "timestamps"
pub const KW_LINKS: [u8; 5] = [108, 105, 110, 107, 115];  // "links"
pub const KW_XATTR: [u8; 5] = [120, 97, 116, 116, 114];  // "xattr"
pub const KW_ACL: [u8; 3] = [97, 99, 108];  // "acl"
pub const KW_ALL: [u8; 3] = [97, 108, 108];  // "all"

// Controls accepted by `--backup` and the version-control environment value.
pub const KW_NONE: [u8; 4] = [110, 111, 110, 101];  // "none"
pub const KW_OFF: [u8; 3] = [111, 102, 102];  // "off"
pub const KW_NUMBERED: [u8; 8] = [110, 117, 109, 98, 101, 114, 101, 100];  // "numbered"
pub const KW_T: [u8; 1] = [116];  // "t"
pub const KW_EXISTING: [u8; 8] = [101, 120, 105, 115, 116, 105, 110, 103];  // "existing"
pub const KW_NIL: [u8; 3] = [110, 105, 108];  // "nil"
pub const KW_SIMPLE: [u8; 6] = [115, 105, 109, 112, 108, 101];  // "simple"
pub const KW_NEVER: [u8; 5] = [110, 101, 118, 101, 114];  // "never"

/// Does the word list contain `kw`?
pub open spec fn list_mentions(v: Vec<Vec<u8>>, kw: Seq<u8>) -> bool {
    exists|i: int| 0 <= i < v@.len() && v@[i]@ == kw
}

/// Does an attribute list name `kw` (directly, not through `all`)?
pub open spec fn mentions(attrs: Option<Vec<Vec<u8>>>, kw: Seq<u8>) -> bool {
    match attrs {
        Option::Some(v) => list_mentions(v, kw),
        Option::None => false,
    }
}

/// The final value of one preservation flag: its initial value, raised by a
/// `--preserve` mention (of the attribute or of `all`), then cleared by a
/// `--no-preserve` mention, which is applied last.
pub open spec fn spec_preserve_flag(cli: Cli, init: bool, kw: Seq<u8>) -> bool {
    (init || mentions(cli.preserve, kw) || mentions(cli.preserve, KW_ALL@))
        && !(mentions(cli.no_preserve, kw) || mentions(cli.no_preserve, KW_ALL@))
}

/// The resolved symlink-follow policy: an explicit follow-always flag wins;
/// archive mode counts as no-dereference; otherwise the default depends on
/// whether the copy is recursive.
pub open spec fn spec_dereference(cli: Cli) -> Dereference {
    if cli.dereference {
        Dereference::Always
    } else if cli.no_dereference || cli.no_deref_preserve_links || cli.archive {
        Dereference::Never
    } else if cli.dereference_args {
        Dereference::CommandLine
    } else if cli.recursive {
        Dereference::Never
    } else {
        Dereference::CommandLine
    }
}

/// The meaning of a backup-control word; an unrecognized word counts as
/// `existing`.
pub open spec fn spec_parse_backup_control(s: Seq<u8>) -> BackupMode {
    if s == KW_NONE@ || s == KW_OFF@ {
        BackupMode::Off
    } else if s == KW_NUMBERED@ || s == KW_T@ {
        BackupMode::Numbered
    } else if s == KW_EXISTING@ || s == KW_NIL@ {
        BackupMode::Existing
    } else if s == KW_SIMPLE@ || s == KW_NEVER@ {
        BackupMode::Simple
    } else {
        BackupMode::Existing
    }
}

/// The resolved backup mode: an explicit `--backup=CONTROL` wins; a bare `-b`
/// consults the version-control environment value and falls back to simple.
pub open spec fn spec_resolve_backup(cli: Cli, version_control: Option<Vec<u8>>) -> BackupMode {
    match cli.backup {
        Option::Some(ctrl) => spec_parse_backup_control(ctrl@),
        Option::None => if cli.simple_backup {
            match version_control {
                Option::Some(vc) => spec_parse_backup_control(vc@),
                Option::None => BackupMode::Simple,
            }
        } else {
            BackupMode::Off
        },
    }
}

/// The resolved backup suffix: `--suffix`, else the environment value, else
/// `~`.
pub open spec fn spec_backup_suffix(cli: Cli, env_suffix: Option<Vec<u8>>) -> Seq<u8> {
    match cli.suffix {
        Option::Some(s) => s@,
        Option::None => match env_suffix {
            Option::Some(e) => e@,
            Option::None => seq![TILDE],
        },
    }
}

/// Interpret one backup-control word.
pub fn parse_backup_control(s: &[u8]) -> (r: BackupMode)
    ensures
        r == spec_parse_backup_control(s@),
{
    if bytes_eq(s, KW_NONE.as_slice()) || bytes_eq(s, KW_OFF.as_slice()) {
        BackupMode::Off
    } else if bytes_eq(s, KW_NUMBERED.as_slice()) || bytes_eq(s, KW_T.as_slice()) {
        BackupMode::Numbered
    } else if bytes_eq(s, KW_EXISTING.as_slice()) || bytes_eq(s, KW_NIL.as_slice()) {
        BackupMode::Existing
    } else if bytes_eq(s, KW_SIMPLE.as_slice()) || bytes_eq(s, KW_NEVER.as_slice()) {
        BackupMode::Simple
    } else {
        BackupMode::Existing
    }
}

/// Resolve the backup mode from the flags and the version-control
/// environment value.
pub fn resolve_backup(cli: &Cli, version_control: &Option<Vec<u8>>) -> (r: BackupMode)
    ensures
        r == spec_resolve_backup(*cli, *version_control),
{
    match &cli.backup {
        Option::Some(ctrl) => parse_backup_control(ctrl.as_slice()),
        Option::None => {
            if cli.simple_backup {
                match version_control {
                    Option::Some(vc) => parse_backup_control(vc.as_slice()),
                    Option::None => BackupMode::Simple,
                }
            } else {
                BackupMode::Off
            }
        },
    }
}

/// Does the word list contain `kw`?
fn list_mentions_exec(v: &Vec<Vec<u8>>, kw: &[u8]) -> (r: bool)
    ensures
        r == list_mentions(*v, kw@),
{
    let mut i: usize = 0;
    while i < v.len()
        invariant
            0 <= i <= v@.len(),
            forall|j: int| 0 <= j < i ==> v@[j]@ != kw@,
        decreases v@.len() - i,
    {
        if bytes_eq(v[i].as_slice(), kw) {
            proof {
                assert((i as int) < v@.len() && v@[i as int]@ == kw@);
            }
            return true;
        }
        i += 1;
    }
    false
}

/// Does the attribute list name `kw`?
fn mentions_exec(attrs: &Option<Vec<Vec<u8>>>, kw: &[u8]) -> (r: bool)
    ensures
        r == mentions(*attrs, kw@),
{
    match attrs {
        Option::None => false,
        Option::Some(v) => list_mentions_exec(v, kw),
    }
}

/// One preservation flag, resolved.
fn preserve_flag(cli: &Cli, init: bool, kw: &[u8]) -> (r: bool)
    ensures
        r == spec_preserve_flag(*cli, init, kw@),
{
    let raised = init
        || mentions_exec(&cli.preserve, kw)
        || mentions_exec(&cli.preserve, KW_ALL.as_slice());
    let cleared = mentions_exec(&cli.no_preserve, kw)
        || mentions_exec(&cli.no_preserve, KW_ALL.as_slice());
    raised && !cleared
}

impl CopyOptions {
    /// Resolve the parsed command line into the options record.
    ///
    /// `version_control` and `env_suffix` carry the values of the
    /// version-control and backup-suffix environment variables, read by the
    /// caller.
    pub fn from_cli(
        cli: &Cli,
        version_control: &Option<Vec<u8>>,
        env_suffix: &Option<Vec<u8>>,
    ) -> (r: CopyOptions)
        ensures
            r.recursive == (cli.recursive || cli.archive),
            r.force == cli.force,
            r.interactive == (cli.interactive && !cli.no_clobber),
            r.no_clobber == cli.no_clobber,
            r.verbose == (cli.verbose || cli.debug),
            r.debug == cli.debug,
            r.progress == cli.progress,
            r.hard_link == cli.hard_link,
            r.symbolic_link == cli.symbolic_link,
            r.attributes_only == cli.attributes_only,
            r.remove_destination == cli.remove_destination,
            r.strip_trailing_slashes == cli.strip_trailing_slashes,
            r.one_file_system == cli.one_file_system,
            r.parents == cli.parents,
            r.no_target_directory == cli.no_target_directory,
            r.target_directory.deep_view() == cli.target_directory.deep_view(),
            r.dereference == spec_dereference(*cli),
            r.preserve_mode == spec_preserve_flag(
                *cli,
                cli.archive || cli.preserve_default,
                KW_MODE@,
            ),
            r.preserve_ownership == spec_preserve_flag(
                *cli,
                cli.archive || cli.preserve_default,
                KW_OWNERSHIP@,
            ),
            r.preserve_timestamps == spec_preserve_flag(
                *cli,
                cli.archive || cli.preserve_default,
                KW_TIMESTAMPS@,
            ),
            r.preserve_links == spec_preserve_flag(
                *cli,
                cli.archive || cli.no_deref_preserve_links,
                KW_LINKS@,
            ),
            r.preserve_xattr == spec_preserve_flag(*cli, cli.archive, KW_XATTR@),
            r.preserve_acl == spec_preserve_flag(*cli, false, KW_ACL@),
            r.reflink == match cli.reflink {
                Option::Some(m) => m,
                Option::None => ReflinkMode::Auto,
            },
            r.sparse == match cli.sparse {
                Option::Some(m) => m,
                Option::None => SparseMode::Auto,
            },
            r.update == cli.update,
            r.backup == spec_resolve_backup(*cli, *version_control),
            r.backup_suffix@ == spec_backup_suffix(*cli, *env_suffix),
    {
        let dereference = if cli.dereference {
            Dereference::Always
        } else if cli.no_dereference || cli.no_deref_preserve_links || cli.archive {
            Dereference::Never
        } else if cli.dereference_args {
            Dereference::CommandLine
        } else if cli.recursive {
            Dereference::Never
        } else {
            Dereference::CommandLine
        };

        let preserve_mode = preserve_flag(
            cli,
            cli.archive || cli.preserve_default,
            KW_MODE.as_slice(),
        );
        let preserve_ownership = preserve_flag(
            cli,
            cli.archive || cli.preserve_default,
            KW_OWNERSHIP.as_slice(),
        );
        let preserve_timestamps = preserve_flag(
            cli,
            cli.archive || cli.preserve_default,
            KW_TIMESTAMPS.as_slice(),
        );
        let preserve_links = preserve_flag(
            cli,
            cli.archive || cli.no_deref_preserve_links,
            KW_LINKS.as_slice(),
        );
        let preserve_xattr = preserve_flag(cli, cli.archive, KW_XATTR.as_slice());
        let preserve_acl = preserve_flag(cli, false, KW_ACL.as_slice());

        let reflink = match cli.reflink {
            Option::Some(m) => m,
            Option::None => ReflinkMode::Auto,
        };
        let sparse = match cli.sparse {
            Option::Some(m) => m,
            Option::None => SparseMode::Auto,
        };

        let backup = resolve_backup(cli, version_control);
        let backup_suffix = match &cli.suffix {
            Option::Some(s) => clone_bytes(s),
            Option::None => match env_suffix {
                Option::Some(e) => clone_bytes(e),
                Option::None => {
                    let mut t: Vec<u8> = Vec::new();
                    t.push(TILDE);
                    proof {
                        assert(t@ =~= seq![TILDE]);
                    }
                    t
                },
            },
        };

        let target_directory = match &cli.target_directory {
            Option::Some(d) => Option::Some(clone_bytes(d)),
            Option::None => Option::None,
        };

        CopyOptions {
            recursive: cli.recursive || cli.archive,
            force: cli.force,
            interactive: cli.interactive && !cli.no_clobber,
            no_clobber: cli.no_clobber,
            verbose: cli.verbose || cli.debug,
            debug: cli.debug,
            progress: cli.progress,
            hard_link: cli.hard_link,
            symbolic_link: cli.symbolic_link,
            attributes_only: cli.attributes_only,
            remove_destination: cli.remove_destination,
            strip_trailing_slashes: cli.strip_trailing_slashes,
            one_file_system: cli.one_file_system,
            parents: cli.parents,
            no_target_directory: cli.no_target_directory,
            target_directory,
            dereference,
            preserve_mode,
            preserve_ownership,
            preserve_timestamps,
            preserve_links,
            preserve_xattr,
            preserve_acl,
            reflink,
            sparse,
            update: cli.update,
            backup,
            backup_suffix,
        }
    }
}

} // verus!
