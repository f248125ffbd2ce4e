use vstd::prelude::*;

use crate::text::{chars_of, concat2, concat3, is_prefix, owned, strip_prefix, string_of};

verus! {

/// `base.join(sub)` of std's `Path` on Unix: an absolute `sub` replaces
/// `base`; otherwise `sub` is appended, with a `/` between unless `base` is
/// empty or already ends with one.
pub open spec fn path_join(base: Seq<char>, sub: Seq<char>) -> Seq<char> {
    if is_prefix("/"@, sub) {
        sub
    } else if base.len() == 0 || base.last() == '/' {
        base + sub
    } else {
        base + "/"@ + sub
    }
}

/// `Path::new(base).join(sub)`, as a string.
pub fn join_path(base: &str, sub: &str) -> (r: String)
    ensures
        r@ == path_join(base@, sub@),
{
    let vs = chars_of(sub);
    if vs.len() > 0 && vs[0] == '/' {
        proof {
            reveal_strlit("/");
            assert(sub@.subrange(0, 1) =~= "/"@);
        }
        return owned(sub);
    }
    proof {
        reveal_strlit("/");
        if is_prefix("/"@, sub@) {
            assert(sub@[0] == sub@.subrange(0, 1)[0]);
        }
    }
    let vb = chars_of(base);
    if vb.len() == 0 || vb[vb.len() - 1] == '/' {
        concat2(base, sub)
    } else {
        concat3(base, "/", sub)
    }
}

/// What a path shows relative to the chroot: `path` without the `chroot`
/// prefix, or `/` when it does not start with it.
pub open spec fn relative_to(path: Seq<char>, chroot: Seq<char>) -> Seq<char> {
    if is_prefix(chroot, path) {
        path.subrange(chroot.len() as int, path.len() as int)
    } else {
        "/"@
    }
}

/// `path.strip_prefix(chroot).unwrap_or("/")`.
pub fn relative_display(path: &str, chroot: &str) -> (r: String)
    ensures
        r@ == relative_to(path@, chroot@),
{
    match strip_prefix(path, chroot) {
        Some(rest) => rest,
        None => owned("/"),
    }
}

/// What `Path::parent` of std gives for a path, as a string (`None` for a
/// root or an empty path).
pub uninterp spec fn std_path_parent(path: Seq<char>) -> Option<Seq<char>>;

/// What `Path::file_name` of std gives for a path, as a string (`None` when
/// the path ends in `..` or is a root).
pub uninterp spec fn std_path_file_name(path: Seq<char>) -> Option<Seq<char>>;

/// `Path::parent` of std, taken lossily to a string. Its result is named:
/// std's component rules (repeated and trailing separators, `.`) are not
/// restated.
#[verifier::external_body]
pub(crate) fn path_parent(path: &str) -> (r: Option<String>)
    ensures
        match r {
            Some(p) => std_path_parent(path@) == Some(p@),
            None => std_path_parent(path@) is None,
        },
{
    std::path::Path::new(path).parent().map(|p| p.to_string_lossy().to_string())
}

/// `Path::file_name` of std, taken lossily to a string; named like
/// `path_parent`.
#[verifier::external_body]
pub(crate) fn path_file_name(path: &str) -> (r: Option<String>)
    ensures
        match r {
            Some(p) => std_path_file_name(path@) == Some(p@),
            None => std_path_file_name(path@) is None,
        },
{
    std::path::Path::new(path).file_name().map(|p| p.to_string_lossy().to_string())
}

} // verus!
