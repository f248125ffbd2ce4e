use vstd::prelude::*;

use crate::error::{AppError, ErrorKind};
use crate::paths::{join_path, path_join};
use crate::text::{concat3, contains, contains_seq, is_prefix, starts_with, trim_start, trim_start_matches_char};

verus! {

/// How a path given to a Git tool is judged: `None` when it is accepted.
pub open spec fn repo_path_refusal(path: Seq<char>) -> Option<Seq<char>> {
    if contains_seq(path, ".."@) {
        Some("Path must not contain '..': '"@ + path + "'"@)
    } else if !is_prefix("/"@, path) {
        Some("Path must be absolute: '"@ + path + "'"@)
    } else {
        None
    }
}

/// The checks that a Git tool makes on a path: no `..` and absolute.
pub fn validate_path(path: &str) -> (r: Result<(), AppError>)
    ensures
        match repo_path_refusal(path@) {
            None => r is Ok,
            Some(message) => r matches Err(e) && e.is(ErrorKind::Validation, "tool_failed"@, message),
        },
{
    if contains(path, "..") {
        return Err(AppError::new(ErrorKind::Validation, "tool_failed", concat3("Path must not contain '..': '", path, "'")));
    }
    if !starts_with(path, "/") {
        return Err(AppError::new(ErrorKind::Validation, "tool_failed", concat3("Path must be absolute: '", path, "'")));
    }
    Ok(())
}

/// Where a repository given as `path` is cloned to below `chroot`.
pub open spec fn clone_target(chroot: Seq<char>, path: Seq<char>) -> Seq<char> {
    path_join(chroot, trim_start(path, '/'))
}

/// The directory to clone into for `path`: checked like any repository
/// path, placed below `chroot`, and refused when `exists` says that it is
/// already there.
pub fn clone_target_path(chroot: &str, path: &str, exists: bool) -> (r: Result<String, AppError>)
    ensures
        repo_path_refusal(path@) matches Some(message) ==> (r matches Err(e) && e.is(ErrorKind::Validation, "tool_failed"@, message)),
        (repo_path_refusal(path@) is None && exists) ==> (r matches Err(e) && e.is(ErrorKind::Validation, "tool_failed"@, "Path '"@ + path@ + "' already exists"@)),
        (repo_path_refusal(path@) is None && !exists) ==> (r matches Ok(p) && p@ == clone_target(chroot@, path@)),
{
    validate_path(path)?;
    let sub = trim_start_matches_char(path, '/');
    let full = join_path(chroot, sub.as_str());
    if exists {
        return Err(AppError::new(ErrorKind::Validation, "tool_failed", concat3("Path '", path, "' already exists")));
    }
    Ok(full)
}

/// The target of cloning `path` below `chroot` (whose existence the caller
/// then checks).
pub fn clone_target_candidate(chroot: &str, path: &str) -> (r: String)
    ensures
        r@ == clone_target(chroot@, path@),
{
    let sub = trim_start_matches_char(path, '/');
    join_path(chroot, sub.as_str())
}

} // verus!
