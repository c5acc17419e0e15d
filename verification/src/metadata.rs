//! Metadata propagation: the fixed attribute order and the classification
//! of per-attribute failures.
//!
//! The order is load-bearing: extended attributes go first because changing
//! ownership may strip them, ownership before mode because it clears the
//! setuid and setgid bits, and ACLs last because their entries carry
//! permission bits of their own.

use vstd::prelude::*;
use crate::bytes::{contains_bytes, contains_seq};
use crate::options::CopyOptions;

verus! {

/// `ENOTSUP`: the filesystem does not support the attribute family.
pub const ENOTSUP: i32 = 95;

/// `EPERM`: the caller lacks the privilege.
pub const EPERM: i32 = 1;

/// `EACCES`: permission denied.
pub const EACCES: i32 = 13;

/// One step of metadata propagation.
#[derive(Clone, Copy, PartialEq, Eq, Structural, Debug)]
pub enum MetaStep {
    /// Copy the extended attributes.
    CopyXattrs,
    /// Set owner and group.
    Chown,
    /// Set the permission bits.
    Chmod,
    /// Set access and modification times.
    SetTimes,
    /// Copy the access-control list; with `restore_mode`, save the
    /// permission bits first and put them back afterwards, because the ACL
    /// overrides them and the mode itself is not being preserved.
    CopyAcl { restore_mode: bool },
}

/// The propagation plan for one file, in the fixed order
/// xattr, ownership, mode, timestamps, ACL.
///
/// Ownership is attempted only with root privilege (it always fails
/// without); mode never applies to a symlink; attribute families the
/// filesystem has refused before (`ENOTSUP`) are left out.
pub open spec fn spec_metadata_plan(
    opts: CopyOptions,
    is_symlink: bool,
    is_root: bool,
    xattr_supported: bool,
    acl_supported: bool,
) -> Seq<MetaStep> {
    (if opts.preserve_xattr && xattr_supported {
        seq![MetaStep::CopyXattrs]
    } else {
        Seq::empty()
    }) + (if opts.preserve_ownership && is_root {
        seq![MetaStep::Chown]
    } else {
        Seq::empty()
    }) + (if opts.preserve_mode && !is_symlink {
        seq![MetaStep::Chmod]
    } else {
        Seq::empty()
    }) + (if opts.preserve_timestamps {
        seq![MetaStep::SetTimes]
    } else {
        Seq::empty()
    }) + (if opts.preserve_acl && acl_supported {
        seq![MetaStep::CopyAcl { restore_mode: !opts.preserve_mode && !is_symlink }]
    } else {
        Seq::empty()
    })
}

/// Build the propagation plan for one file.
pub fn metadata_plan(
    opts: &CopyOptions,
    is_symlink: bool,
    is_root: bool,
    xattr_supported: bool,
    acl_supported: bool,
) -> (r: Vec<MetaStep>)
    ensures
        r@ == spec_metadata_plan(*opts, is_symlink, is_root, xattr_supported, acl_supported),
{
    let mut plan: Vec<MetaStep> = Vec::new();
    if opts.preserve_xattr && xattr_supported {
        plan.push(MetaStep::CopyXattrs);
    }
    if opts.preserve_ownership && is_root {
        plan.push(MetaStep::Chown);
    }
    if opts.preserve_mode && !is_symlink {
        plan.push(MetaStep::Chmod);
    }
    if opts.preserve_timestamps {
        plan.push(MetaStep::SetTimes);
    }
    if opts.preserve_acl && acl_supported {
        plan.push(MetaStep::CopyAcl { restore_mode: !opts.preserve_mode && !is_symlink });
    }
    proof {
        assert(plan@ =~= spec_metadata_plan(
            *opts,
            is_symlink,
            is_root,
            xattr_supported,
            acl_supported,
        ));
    }
    plan
}

/// The deferred plan for one directory, applied bottom-up after the walk:
/// ownership, then mode, then timestamps.
pub open spec fn spec_dir_metadata_plan(opts: CopyOptions) -> Seq<MetaStep> {
    (if opts.preserve_ownership {
        seq![MetaStep::Chown]
    } else {
        Seq::empty()
    }) + (if opts.preserve_mode {
        seq![MetaStep::Chmod]
    } else {
        Seq::empty()
    }) + (if opts.preserve_timestamps {
        seq![MetaStep::SetTimes]
    } else {
        Seq::empty()
    })
}

/// Build the deferred plan for one directory.
pub fn dir_metadata_plan(opts: &CopyOptions) -> (r: Vec<MetaStep>)
    ensures
        r@ == spec_dir_metadata_plan(*opts),
{
    let mut plan: Vec<MetaStep> = Vec::new();
    if opts.preserve_ownership {
        plan.push(MetaStep::Chown);
    }
    if opts.preserve_mode {
        plan.push(MetaStep::Chmod);
    }
    if opts.preserve_timestamps {
        plan.push(MetaStep::SetTimes);
    }
    proof {
        assert(plan@ =~= spec_dir_metadata_plan(*opts));
    }
    plan
}

/// What to do about one failed metadata step.
#[derive(Clone, Copy, PartialEq, Eq, Structural, Debug)]
pub enum MetaErrAction {
    /// The filesystem cannot do this at all: latch the capability off and
    /// carry on; never try again in this process.
    DisableSupport,
    /// Expected without privilege: ignore silently.
    Ignore,
    /// A real failure: surface it with path context.
    Fail,
}

/// Classify an extended-attribute failure: `ENOTSUP` disables the family,
/// lack of permission is ignored, anything else is an error.
pub fn classify_xattr_errno(errno: i32) -> (r: MetaErrAction)
    ensures
        r == if errno == ENOTSUP {
            MetaErrAction::DisableSupport
        } else if errno == EPERM || errno == EACCES {
            MetaErrAction::Ignore
        } else {
            MetaErrAction::Fail
        },
{
    if errno == ENOTSUP {
        MetaErrAction::DisableSupport
    } else if errno == EPERM || errno == EACCES {
        MetaErrAction::Ignore
    } else {
        MetaErrAction::Fail
    }
}

/// Classify an ownership failure: `EPERM` is ignored, anything else is an
/// error.
pub fn classify_chown_errno(errno: i32) -> (r: MetaErrAction)
    ensures
        r == if errno == EPERM {
            MetaErrAction::Ignore
        } else {
            MetaErrAction::Fail
        },
{
    if errno == EPERM {
        MetaErrAction::Ignore
    } else {
        MetaErrAction::Fail
    }
}

/// "not supported" — the wording the ACL library uses for an unsupported
/// filesystem, on reads and writes alike.
pub const MSG_NOT_SUPPORTED: [u8; 13] = [110, 111, 116, 32, 115, 117, 112, 112, 111, 114, 116, 101, 100];

/// "No data available" — the wording of a missing ACL on read.
pub const MSG_NO_DATA: [u8; 17] = [78, 111, 32, 100, 97, 116, 97, 32, 97, 118, 97, 105, 108, 97, 98, 108, 101];

/// Does a failed ACL read mean the filesystem has no ACLs to offer?  Then
/// ACL support is latched off instead of failing the copy.
pub fn acl_read_error_disables(msg: &[u8]) -> (r: bool)
    ensures
        r == (contains_seq(msg@, MSG_NOT_SUPPORTED@) || contains_seq(msg@, MSG_NO_DATA@)),
{
    contains_bytes(msg, MSG_NOT_SUPPORTED.as_slice()) || contains_bytes(
        msg,
        MSG_NO_DATA.as_slice(),
    )
}

/// Does a failed ACL write mean the destination filesystem does not support
/// ACLs?
pub fn acl_write_error_disables(msg: &[u8]) -> (r: bool)
    ensures
        r == contains_seq(msg@, MSG_NOT_SUPPORTED@),
{
    contains_bytes(msg, MSG_NOT_SUPPORTED.as_slice())
}

} // verus!
