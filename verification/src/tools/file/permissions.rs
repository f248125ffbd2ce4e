use vstd::prelude::*;

use crate::error::{AppError, ErrorKind};
use crate::text::{concat2, concat3, contains, debug_string_list, debug_strings, is_prefix, contains_seq, starts_with, views};
use crate::tools::models::ToolPermission;

verus! {

/// `path` lies within one of `scopes` (as a string prefix), or there are
/// no scopes.
pub open spec fn in_scope(scopes: Seq<Seq<char>>, path: Seq<char>) -> bool {
    scopes.len() == 0 || exists|i: int| 0 <= i < scopes.len() && is_prefix(#[trigger] scopes[i], path)
}

/// Whether `permissions` let a tool touch `path`.
pub fn check_scope(permissions: &ToolPermission, path: &str) -> (r: bool)
    ensures
        r == in_scope(views(permissions.scopes@), path@),
{
    let n = permissions.scopes.len();
    if n == 0 {
        return true;
    }
    let mut i: usize = 0;
    while i < n
        invariant
            n == permissions.scopes.len(),
            i <= n,
            forall|j: int| 0 <= j < i ==> !is_prefix(#[trigger] views(permissions.scopes@)[j], path@),
        decreases n - i,
    {
        if starts_with(path, permissions.scopes[i].as_str()) {
            assert(is_prefix(views(permissions.scopes@)[i as int], path@));
            return true;
        }
        i = i + 1;
    }
    false
}

/// The message of the error for a path outside the scopes.
pub open spec fn out_of_scope_message(path: Seq<char>, scopes: Seq<Seq<char>>) -> Seq<char> {
    "Path '"@ + path + "' is not within allowed scopes: "@ + debug_strings(scopes)
}

/// How a path given to a file tool is judged before it is resolved
/// against the chroot: `None` when it is accepted.
pub open spec fn path_refusal(scopes: Seq<Seq<char>>, path: Seq<char>) -> Option<(ErrorKind, Seq<char>)> {
    if contains_seq(path, ".."@) {
        Some((ErrorKind::Validation, "Path must not contain '..': '"@ + path + "'"@))
    } else if !is_prefix("/"@, path) {
        Some((ErrorKind::Validation, "Path must be absolute: '"@ + path + "'"@))
    } else if !in_scope(scopes, path) {
        Some((ErrorKind::Unauthorized, out_of_scope_message(path, scopes)))
    } else {
        None
    }
}

/// The checks that a file tool makes on a path before resolving it: no
/// `..`, absolute, and within the granted scopes.
pub fn check_path(permissions: &ToolPermission, path: &str) -> (r: Result<(), AppError>)
    ensures
        match path_refusal(views(permissions.scopes@), path@) {
            None => r is Ok,
            Some((kind, message)) => r matches Err(e) && e.is(kind, "tool_failed"@, message),
        },
{
    if contains(path, "..") {
        return Err(AppError::new(ErrorKind::Validation, "tool_failed", concat3("Path must not contain '..': '", path, "'")));
    }
    if !starts_with(path, "/") {
        return Err(AppError::new(ErrorKind::Validation, "tool_failed", concat3("Path must be absolute: '", path, "'")));
    }
    if !check_scope(permissions, path) {
        return Err(AppError::new(ErrorKind::Unauthorized, "tool_failed", scope_error_message(permissions, path)));
    }
    Ok(())
}

/// The message for a path outside the granted scopes.
pub fn scope_error_message(permissions: &ToolPermission, path: &str) -> (m: String)
    ensures
        m@ == out_of_scope_message(path@, views(permissions.scopes@)),
{
    let scopes = debug_string_list(&permissions.scopes);
    let head = concat3("Path '", path, "' is not within allowed scopes: ");
    concat2(head.as_str(), scopes.as_str())
}

} // verus!
