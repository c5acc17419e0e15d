//! Path arithmetic and the small checks of the orchestrator: trailing-slash
//! stripping, destination-path construction, the same-file test and the
//! copy-into-self test.

use vstd::prelude::*;
use vstd::slice::{slice_subrange, slice_to_vec};
use crate::bytes::{append_bytes, bytes_eq, clone_bytes, starts_with_bytes, DOT, SLASH};
use crate::error::CpError;
use crate::options::Dereference;

verus! {

/// A file's identity: device and inode number.
#[derive(Clone, Copy, PartialEq, Eq, Structural, Debug)]
pub struct FileId {
    pub dev: u64,
    pub ino: u64,
}

/// Two paths name the same file exactly when device and inode agree.
pub fn is_same_file(a: &FileId, b: &FileId) -> (r: bool)
    ensures
        r == (a.dev == b.dev && a.ino == b.ino),
{
    a.dev == b.dev && a.ino == b.ino
}

/// Decide whether a symlink source should be followed, given the policy and
/// whether the path was named directly on the command line.
pub fn should_follow_symlink(deref: Dereference, is_command_line_arg: bool) -> (r: bool)
    ensures
        r == match deref {
            Dereference::Always => true,
            Dereference::Never => false,
            Dereference::CommandLine => is_command_line_arg,
        },
{
    match deref {
        Dereference::Always => true,
        Dereference::Never => false,
        Dereference::CommandLine => is_command_line_arg,
    }
}

/// `p` with every trailing `/` removed (possibly empty).
pub open spec fn spec_drop_trailing_slashes(p: Seq<u8>) -> Seq<u8>
    decreases p.len(),
{
    if p.len() > 0 && p.last() == SLASH {
        spec_drop_trailing_slashes(p.drop_last())
    } else {
        p
    }
}

/// The stripped form of a path: trailing slashes removed, except that a path
/// of slashes alone (or an empty path) becomes `/`.
pub open spec fn spec_strip_trailing_slashes(p: Seq<u8>) -> Seq<u8> {
    if spec_drop_trailing_slashes(p).len() == 0 {
        seq![SLASH]
    } else {
        spec_drop_trailing_slashes(p)
    }
}

/// Remove trailing slashes from a path (`--strip-trailing-slashes`).
pub fn strip_trailing_slashes(path: &[u8]) -> (r: Vec<u8>)
    ensures
        r@ == spec_strip_trailing_slashes(path@),
{
    let mut end: usize = path.len();
    proof {
        assert(path@.subrange(0, path@.len() as int) =~= path@);
    }
    while end > 0 && path[end - 1] == SLASH
        invariant
            0 <= end <= path@.len(),
            path@.len() <= usize::MAX,
            spec_drop_trailing_slashes(path@) == spec_drop_trailing_slashes(
                path@.subrange(0, end as int),
            ),
        decreases end,
    {
        proof {
            let cur = path@.subrange(0, end as int);
            assert(cur.last() == SLASH);
            assert(cur.drop_last() =~= path@.subrange(0, end - 1));
        }
        end -= 1;
    }
    if end == 0 {
        let mut v: Vec<u8> = Vec::new();
        v.push(SLASH);
        proof {
            assert(path@.subrange(0, 0) =~= Seq::<u8>::empty());
            assert(v@ =~= seq![SLASH]);
        }
        v
    } else {
        proof {
            let cur = path@.subrange(0, end as int);
            assert(cur.len() > 0 && cur.last() != SLASH);
        }
        slice_to_vec(slice_subrange(path, 0, end))
    }
}

/// The suffix of `t` after its last `/` (all of `t` when it has none).
pub open spec fn spec_after_last_slash(t: Seq<u8>) -> Seq<u8>
    decreases t.len(),
{
    if t.len() == 0 {
        t
    } else if t.last() == SLASH {
        Seq::empty()
    } else {
        spec_after_last_slash(t.drop_last()) + seq![t.last()]
    }
}

/// The final component of a path, the way the orchestrator names a file
/// inside a destination directory: trailing slashes are ignored, and a root,
/// empty, `.` or `..` path has no usable name.
pub open spec fn spec_file_name(p: Seq<u8>) -> Option<Seq<u8>> {
    let name = spec_after_last_slash(spec_drop_trailing_slashes(p));
    if name.len() == 0 || name == seq![DOT] || name == seq![DOT, DOT] {
        Option::None
    } else {
        Option::Some(name)
    }
}

/// `dir` and `name` joined with a single `/` between them; an empty `dir`
/// yields `name` alone.
pub open spec fn spec_join(dir: Seq<u8>, name: Seq<u8>) -> Seq<u8> {
    if dir.len() == 0 {
        name
    } else if dir.last() == SLASH {
        dir + name
    } else {
        dir + seq![SLASH] + name
    }
}

/// `p` with every leading `/` removed.
pub open spec fn spec_drop_leading_slashes(p: Seq<u8>) -> Seq<u8>
    decreases p.len(),
{
    if p.len() > 0 && p.first() == SLASH {
        spec_drop_leading_slashes(p.drop_first())
    } else {
        p
    }
}

/// Where a copied source lands: inside a directory destination it takes the
/// source's file name — or, under `--parents`, the whole source path with its
/// root removed — and a file destination is used as given.
pub open spec fn spec_build_dest_path(
    source: Seq<u8>,
    dest: Seq<u8>,
    dest_is_dir: bool,
    parents: bool,
) -> Seq<u8> {
    if dest_is_dir {
        if parents {
            spec_join(dest, spec_drop_leading_slashes(source))
        } else {
            spec_join(
                dest,
                match spec_file_name(source) {
                    Option::Some(n) => n,
                    Option::None => source,
                },
            )
        }
    } else {
        dest
    }
}

/// Join `dir` and `name` with a single `/`.
pub fn join_path(dir: &[u8], name: &[u8]) -> (r: Vec<u8>)
    ensures
        r@ == spec_join(dir@, name@),
{
    let mut v: Vec<u8> = slice_to_vec(dir);
    if dir.len() == 0 {
        append_bytes(&mut v, name);
        proof {
            assert(v@ =~= spec_join(dir@, name@));
        }
        return v;
    }
    if dir[dir.len() - 1] != SLASH {
        v.push(SLASH);
    }
    append_bytes(&mut v, name);
    proof {
        if dir@.last() == SLASH {
            assert(v@ =~= dir@ + name@);
        } else {
            assert(v@ =~= dir@ + seq![SLASH] + name@);
        }
    }
    v
}

/// The final component of a path, or `None` for a root, empty, `.` or `..`
/// path.
pub fn file_name(path: &[u8]) -> (r: Option<Vec<u8>>)
    ensures
        match r {
            Option::Some(n) => spec_file_name(path@) == Option::Some(n@),
            Option::None => spec_file_name(path@) is None,
        },
{
    let mut end: usize = path.len();
    proof {
        assert(path@.subrange(0, path@.len() as int) =~= path@);
    }
    while end > 0 && path[end - 1] == SLASH
        invariant
            0 <= end <= path@.len(),
            path@.len() <= usize::MAX,
            spec_drop_trailing_slashes(path@) == spec_drop_trailing_slashes(
                path@.subrange(0, end as int),
            ),
        decreases end,
    {
        proof {
            let cur = path@.subrange(0, end as int);
            assert(cur.last() == SLASH);
            assert(cur.drop_last() =~= path@.subrange(0, end - 1));
        }
        end -= 1;
    }
    proof {
        let t = path@.subrange(0, end as int);
        if end > 0 {
            assert(t.len() > 0 && t.last() != SLASH);
        } else {
            assert(t =~= Seq::<u8>::empty());
        }
        assert(spec_drop_trailing_slashes(path@) == t);
    }
    let ghost t = path@.subrange(0, end as int);
    let mut start: usize = end;
    while start > 0 && path[start - 1] != SLASH
        invariant
            0 <= start <= end <= path@.len(),
            path@.len() <= usize::MAX,
            t == path@.subrange(0, end as int),
            spec_after_last_slash(t) == spec_after_last_slash(path@.subrange(0, start as int))
                + path@.subrange(start as int, end as int),
        decreases start,
    {
        proof {
            let cur = path@.subrange(0, start as int);
            assert(cur.last() == path@[start - 1]);
            assert(cur.last() != SLASH);
            assert(cur.drop_last() =~= path@.subrange(0, start - 1));
            assert(spec_after_last_slash(cur.drop_last()) + seq![cur.last()]
                + path@.subrange(start as int, end as int)
                =~= spec_after_last_slash(cur.drop_last())
                + path@.subrange(start - 1, end as int));
        }
        start -= 1;
    }
    proof {
        if start > 0 {
            let cur = path@.subrange(0, start as int);
            assert(cur.last() == SLASH);
            assert(spec_after_last_slash(cur) =~= Seq::<u8>::empty());
        } else {
            assert(path@.subrange(0, 0) =~= Seq::<u8>::empty());
        }
        assert(spec_after_last_slash(t) =~= path@.subrange(start as int, end as int));
    }
    let name = slice_subrange(path, start, end);
    let dot: [u8; 1] = [DOT];
    let dotdot: [u8; 2] = [DOT, DOT];
    if name.len() == 0 || bytes_eq(name, dot.as_slice()) || bytes_eq(name, dotdot.as_slice()) {
        proof {
            assert(seq![DOT] =~= dot@);
            assert(seq![DOT, DOT] =~= dotdot@);
        }
        Option::None
    } else {
        proof {
            assert(seq![DOT] =~= dot@);
            assert(seq![DOT, DOT] =~= dotdot@);
        }
        Option::Some(slice_to_vec(name))
    }
}

/// `p` with every leading `/` removed.
fn drop_leading_slashes(path: &[u8]) -> (r: Vec<u8>)
    ensures
        r@ == spec_drop_leading_slashes(path@),
{
    let n: usize = path.len();
    proof {
        assert(path@.subrange(0, path@.len() as int) =~= path@);
    }
    let mut start: usize = 0;
    while start < n && path[start] == SLASH
        invariant
            n == path@.len(),
            0 <= start <= path@.len(),
            path@.len() <= usize::MAX,
            spec_drop_leading_slashes(path@) == spec_drop_leading_slashes(
                path@.subrange(start as int, path@.len() as int),
            ),
        decreases path@.len() - start,
    {
        proof {
            let cur = path@.subrange(start as int, path@.len() as int);
            assert(cur.first() == SLASH);
            assert(cur.drop_first() =~= path@.subrange(start + 1, path@.len() as int));
        }
        start += 1;
    }
    proof {
        let cur = path@.subrange(start as int, path@.len() as int);
        if start < path@.len() {
            assert(cur.first() != SLASH);
        } else {
            assert(cur =~= Seq::<u8>::empty());
        }
    }
    slice_to_vec(slice_subrange(path, start, path.len()))
}

/// Build the destination path for one source operand.
pub fn build_dest_path(
    source: &[u8],
    dest: &[u8],
    dest_is_dir: bool,
    parents: bool,
) -> (r: Vec<u8>)
    ensures
        r@ == spec_build_dest_path(source@, dest@, dest_is_dir, parents),
{
    if dest_is_dir {
        if parents {
            let rel = drop_leading_slashes(source);
            join_path(dest, rel.as_slice())
        } else {
            match file_name(source) {
                Option::Some(n) => join_path(dest, n.as_slice()),
                Option::None => join_path(dest, source),
            }
        }
    } else {
        slice_to_vec(dest)
    }
}

/// Is `dst` the same path as `src`, or a path inside it?  Both are expected
/// in canonical form: absolute, no trailing slash except for the root.
pub open spec fn spec_is_self_or_descendant(src: Seq<u8>, dst: Seq<u8>) -> bool {
    dst == src || (dst.len() > src.len() && dst.subrange(0, src.len() as int) == src && (
        src.len() > 0 && src.last() == SLASH || dst[src.len() as int] == SLASH
    ))
}

/// The copy-into-self test on canonical paths.
pub fn is_self_or_descendant(src: &[u8], dst: &[u8]) -> (r: bool)
    ensures
        r == spec_is_self_or_descendant(src@, dst@),
{
    if bytes_eq(dst, src) {
        return true;
    }
    if dst.len() > src.len() && starts_with_bytes(dst, src) {
        proof {
            assert(src@.is_prefix_of(dst@) ==> dst@.subrange(0, src@.len() as int) == src@);
        }
        if src.len() > 0 && src[src.len() - 1] == SLASH {
            return true;
        }
        if dst[src.len()] == SLASH {
            return true;
        }
        proof {
            assert(!(src@.len() > 0 && src@.last() == SLASH));
        }
        return false;
    }
    proof {
        if dst@.len() > src@.len() && dst@.subrange(0, src@.len() as int) == src@ {
            assert(src@.is_prefix_of(dst@));
        }
    }
    false
}

/// What the orchestrator decides about one source operand before any copying
/// starts: a directory without `-R` is refused, and a directory whose
/// canonical destination lies at or under its canonical self is refused.
/// `canon` carries the canonical forms of source and destination where both
/// could be resolved.
pub open spec fn spec_source_precheck(
    source_is_dir: bool,
    recursive: bool,
    canon: Option<(Seq<u8>, Seq<u8>)>,
) -> Option<CpErrorKind> {
    if source_is_dir && !recursive {
        Option::Some(CpErrorKind::OmitDirectory)
    } else if source_is_dir && (match canon {
        Option::Some(c) => spec_is_self_or_descendant(c.0, c.1),
        Option::None => false,
    }) {
        Option::Some(CpErrorKind::CopyIntoSelf)
    } else {
        Option::None
    }
}

/// The failures the orchestrator can decide on its own.
#[derive(Clone, Copy, PartialEq, Eq, Structural, Debug)]
pub enum CpErrorKind {
    OmitDirectory,
    CopyIntoSelf,
}

/// Pre-check one source operand.  `canon_src` / `canon_dst` are the
/// canonicalized source and destination paths, where canonicalization
/// succeeded.
pub fn source_precheck(
    source_is_dir: bool,
    recursive: bool,
    canon_src: &Option<Vec<u8>>,
    canon_dst: &Option<Vec<u8>>,
) -> (r: Option<CpErrorKind>)
    ensures
        r == spec_source_precheck(
            source_is_dir,
            recursive,
            match (*canon_src, *canon_dst) {
                (Option::Some(s), Option::Some(d)) => Option::Some((s@, d@)),
                _ => Option::None,
            },
        ),
{
    if source_is_dir && !recursive {
        return Option::Some(CpErrorKind::OmitDirectory);
    }
    if source_is_dir {
        match (canon_src, canon_dst) {
            (Option::Some(s), Option::Some(d)) => {
                if is_self_or_descendant(s.as_slice(), d.as_slice()) {
                    return Option::Some(CpErrorKind::CopyIntoSelf);
                }
            },
            _ => {},
        }
    }
    Option::None
}

/// Resolve the operand list into sources and a destination.
///
/// `target_dir_is_dir` reports whether the `--target-directory` operand is a
/// directory (meaningful only when one was given), and `dest_is_dir` whether
/// the final operand is.  With a target directory every operand is a source;
/// otherwise the final operand is the destination, there must be at least
/// two operands, and more than two require a directory destination unless
/// `-T` was given.
pub fn resolve_target(
    paths: &Vec<Vec<u8>>,
    target_dir: &Option<Vec<u8>>,
    target_dir_is_dir: bool,
    dest_is_dir: bool,
    no_target_dir: bool,
) -> (r: Result<(Vec<Vec<u8>>, Vec<u8>), CpError>)
    ensures
        match *target_dir {
            Option::Some(dir) => if !target_dir_is_dir {
                r matches Result::Err(CpError::NotADirectory { path }) && path@ == dir@
            } else {
                r matches Result::Ok(sd) && sd.1@ == dir@ && sd.0@.len() == paths@.len()
                    && forall|i: int| 0 <= i < sd.0@.len() ==> sd.0@[i]@ == paths@[i]@
            },
            Option::None => if paths@.len() == 0 {
                r matches Result::Err(CpError::MissingOperand)
            } else if paths@.len() == 1 {
                r matches Result::Err(CpError::MissingDestination { src }) && src@ == paths@[0]@
            } else if paths@.len() > 2 && !dest_is_dir && !no_target_dir {
                r matches Result::Err(CpError::NotADirectory { path })
                    && path@ == paths@.last()@
            } else {
                r matches Result::Ok(sd) && sd.1@ == paths@.last()@
                    && sd.0@.len() == paths@.len() - 1
                    && forall|i: int| 0 <= i < sd.0@.len() ==> sd.0@[i]@ == paths@[i]@
            },
        },
{
    match target_dir {
        Option::Some(dir) => {
            if !target_dir_is_dir {
                Result::Err(CpError::NotADirectory { path: clone_bytes(dir) })
            } else {
                Result::Ok((clone_path_prefix(paths, paths.len()), clone_bytes(dir)))
            }
        },
        Option::None => {
            if paths.len() == 0 {
                Result::Err(CpError::MissingOperand)
            } else if paths.len() == 1 {
                Result::Err(CpError::MissingDestination { src: clone_bytes(&paths[0]) })
            } else {
                let n = paths.len();
                if n > 2 && !dest_is_dir && !no_target_dir {
                    Result::Err(CpError::NotADirectory { path: clone_bytes(&paths[n - 1]) })
                } else {
                    Result::Ok((clone_path_prefix(paths, n - 1), clone_bytes(&paths[n - 1])))
                }
            }
        },
    }
}

/// The first `n` entries of a path list, copied.
fn clone_path_prefix(paths: &Vec<Vec<u8>>, n: usize) -> (r: Vec<Vec<u8>>)
    requires
        n <= paths@.len(),
    ensures
        r@.len() == n,
        forall|i: int| 0 <= i < n ==> r@[i]@ == paths@[i]@,
{
    let mut r: Vec<Vec<u8>> = Vec::new();
    let mut i: usize = 0;
    while i < n
        invariant
            0 <= i <= n <= paths@.len(),
            r@.len() == i,
            forall|j: int| 0 <= j < i ==> r@[j]@ == paths@[j]@,
        decreases n - i,
    {
        r.push(clone_bytes(&paths[i]));
        i += 1;
    }
    r
}

/// ASCII whitespace, the bytes `trim` removes from a console answer.
pub open spec fn spec_is_ws(b: u8) -> bool {
    b == 32 || b == 9 || b == 10 || b == 13 || b == 11 || b == 12
}

/// A byte lowered to ASCII lower case.
pub open spec fn spec_lower_byte(b: u8) -> u8 {
    if 65 <= b <= 90 {
        (b + 32) as u8
    } else {
        b
    }
}

/// `s` without leading ASCII whitespace.
pub open spec fn spec_trim_start(s: Seq<u8>) -> Seq<u8>
    decreases s.len(),
{
    if s.len() > 0 && spec_is_ws(s.first()) {
        spec_trim_start(s.drop_first())
    } else {
        s
    }
}

/// `s` without trailing ASCII whitespace.
pub open spec fn spec_trim_end(s: Seq<u8>) -> Seq<u8>
    decreases s.len(),
{
    if s.len() > 0 && spec_is_ws(s.last()) {
        spec_trim_end(s.drop_last())
    } else {
        s
    }
}

/// Does a console answer mean yes?  The answer is trimmed of ASCII
/// whitespace, lowered to ASCII lower case, and must read `y` or `yes`.
pub open spec fn spec_is_affirmative(s: Seq<u8>) -> bool {
    let t = spec_trim_end(spec_trim_start(s)).map_values(|b: u8| spec_lower_byte(b));
    t == seq![121u8] || t == seq![121u8, 101u8, 115u8]
}

fn lower_byte(b: u8) -> (r: u8)
    ensures
        r == spec_lower_byte(b),
{
    if b >= 65 && b <= 90 {
        b + 32
    } else {
        b
    }
}

fn is_ws(b: u8) -> (r: bool)
    ensures
        r == spec_is_ws(b),
{
    b == 32 || b == 9 || b == 10 || b == 13 || b == 11 || b == 12
}

/// Interpret a console answer to the overwrite prompt.
pub fn is_affirmative(answer: &[u8]) -> (r: bool)
    ensures
        r == spec_is_affirmative(answer@),
{
    let n: usize = answer.len();
    proof {
        assert(answer@.subrange(0, answer@.len() as int) =~= answer@);
    }
    let mut start: usize = 0;
    while start < n && is_ws(answer[start])
        invariant
            n == answer@.len(),
            0 <= start <= n,
            spec_trim_start(answer@) == spec_trim_start(
                answer@.subrange(start as int, n as int),
            ),
        decreases n - start,
    {
        proof {
            let cur = answer@.subrange(start as int, n as int);
            assert(cur.first() == answer@[start as int]);
            assert(cur.drop_first() =~= answer@.subrange(start + 1, n as int));
        }
        start += 1;
    }
    proof {
        let cur = answer@.subrange(start as int, n as int);
        if start < n {
            assert(!spec_is_ws(cur.first()));
        } else {
            assert(cur =~= Seq::<u8>::empty());
        }
        assert(spec_trim_start(answer@) == cur);
    }
    let mut end: usize = n;
    while end > start && is_ws(answer[end - 1])
        invariant
            n == answer@.len(),
            0 <= start <= end <= n,
            spec_trim_start(answer@) == answer@.subrange(start as int, n as int),
            spec_trim_end(answer@.subrange(start as int, n as int)) == spec_trim_end(
                answer@.subrange(start as int, end as int),
            ),
        decreases end,
    {
        proof {
            let cur = answer@.subrange(start as int, end as int);
            assert(cur.last() == answer@[end - 1]);
            assert(cur.drop_last() =~= answer@.subrange(start as int, end - 1));
        }
        end -= 1;
    }
    let ghost trimmed = answer@.subrange(start as int, end as int);
    proof {
        if end > start {
            assert(!spec_is_ws(trimmed.last()));
        } else {
            assert(trimmed =~= Seq::<u8>::empty());
        }
        assert(spec_trim_end(spec_trim_start(answer@)) == trimmed);
    }
    let len = end - start;
    if len == 1 {
        let r = lower_byte(answer[start]) == 121;
        proof {
            let t = trimmed.map_values(|b: u8| spec_lower_byte(b));
            assert(t.len() == 1);
            assert(t[0] == spec_lower_byte(answer@[start as int]));
            if r {
                assert(t =~= seq![121u8]);
            } else {
                assert(t != seq![121u8]) by {
                    if t == seq![121u8] {
                        assert(t[0] == 121u8);
                    }
                }
                assert(t != seq![121u8, 101u8, 115u8]) by {
                    assert(t.len() != 3);
                }
            }
        }
        r
    } else if len == 3 {
        let r = lower_byte(answer[start]) == 121 && lower_byte(answer[start + 1]) == 101
            && lower_byte(answer[start + 2]) == 115;
        proof {
            let t = trimmed.map_values(|b: u8| spec_lower_byte(b));
            assert(t.len() == 3);
            assert(t[0] == spec_lower_byte(answer@[start as int]));
            assert(t[1] == spec_lower_byte(answer@[start as int + 1]));
            assert(t[2] == spec_lower_byte(answer@[start as int + 2]));
            if r {
                assert(t =~= seq![121u8, 101u8, 115u8]);
            } else {
                assert(t != seq![121u8, 101u8, 115u8]) by {
                    if t == seq![121u8, 101u8, 115u8] {
                        assert(t[0] == 121u8 && t[1] == 101u8 && t[2] == 115u8);
                    }
                }
                assert(t != seq![121u8]) by {
                    assert(t.len() != 1);
                }
            }
        }
        r
    } else {
        proof {
            let t = trimmed.map_values(|b: u8| spec_lower_byte(b));
            assert(t.len() == len);
            assert(t != seq![121u8] && t != seq![121u8, 101u8, 115u8]) by {
                assert(seq![121u8].len() == 1);
                assert(seq![121u8, 101u8, 115u8].len() == 3);
            }
        }
        false
    }
}

/// No copy into itself: whenever the canonical destination of a directory
/// copy equals the canonical source or lies beneath it, the orchestrator's
/// pre-check refuses the operand with the copy-into-self error before any
/// copying starts.
pub proof fn lemma_copy_into_self_refused(src: Seq<u8>, dst: Seq<u8>, recursive: bool)
    requires
        spec_is_self_or_descendant(src, dst),
        recursive,
    ensures
        spec_source_precheck(true, recursive, Option::Some((src, dst))) == Option::Some(
            CpErrorKind::CopyIntoSelf,
        ),
{
}

} // verus!
