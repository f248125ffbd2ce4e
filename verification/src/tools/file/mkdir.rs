use vstd::prelude::*;

use crate::error::{AppError, ErrorKind};
use crate::paths::{join_path, path_join, relative_display, relative_to};
use crate::schema::{plain_field, property_named, Schema, SchemaField, SchemaFieldType};
use crate::text::{concat3, contains, contains_seq, is_prefix, starts_with, trim_start, trim_start_matches_char, views};
use crate::tools::file::permissions::{check_scope, in_scope, out_of_scope_message, scope_error_message};
use crate::tools::models::ToolPermission;

verus! {

/// The tool that creates directories (like `mkdir -p`).
pub struct Mkdir;

/// The arguments of the mkdir tool.
pub struct MkdirArguments {
    pub path: String,
}

/// The parameters of the mkdir tool.
pub open spec fn mkdir_schema(s: Schema) -> bool {
    &&& s.name@ == "file_mkdir"@
    &&& s.description@ == ""@
    &&& s.properties@.len() == 1
    &&& property_named(s.properties@[0], "path"@, true)
    &&& plain_field(s.properties@[0].field, SchemaFieldType::String, "Absolute path within the current chroot to directory."@)
}

/// The directory that the mkdir tool creates for `path` under the resolved
/// chroot `root`.
pub open spec fn mkdir_full_path(root: Seq<char>, path: Seq<char>) -> Seq<char> {
    path_join(root, trim_start(path, '/'))
}

impl Mkdir {
    pub fn name(&self) -> (r: String)
        ensures
            r@ == "file_mkdir"@,
    {
        "file_mkdir".to_owned()
    }

    pub fn description(&self) -> (r: String)
        ensures
            r@ == "Creates directories on the filesystem (like mkdir -p)"@,
    {
        "Creates directories on the filesystem (like mkdir -p)".to_owned()
    }

    pub fn schema(&self) -> (s: Schema)
        ensures
            mkdir_schema(s),
    {
        let mut schema = Schema::new("file_mkdir", "");
        schema.add_property(
            "path",
            true,
            SchemaField::new(SchemaFieldType::String, "Absolute path within the current chroot to directory.", None),
        );
        schema
    }

    /// The directory to create for `args.path` below the resolved chroot
    /// `root`: the path with its leading slashes dropped, joined to `root`.
    /// A path with `..` or not absolute is refused, as is one outside the
    /// granted scopes.
    pub fn target(permissions: &ToolPermission, root: &str, args: &MkdirArguments) -> (r: Result<String, AppError>)
        ensures
            contains_seq(args.path@, ".."@) ==> (r matches Err(e) && e.is(
                ErrorKind::Validation,
                "tool_failed"@,
                "Path must not contain '..': '"@ + args.path@ + "'"@,
            )),
            !contains_seq(args.path@, ".."@) && !is_prefix("/"@, args.path@) ==> (r matches Err(e) && e.is(
                ErrorKind::Validation,
                "tool_failed"@,
                "Path must be absolute: '"@ + args.path@ + "'"@,
            )),
            !contains_seq(args.path@, ".."@) && is_prefix("/"@, args.path@) && in_scope(views(permissions.scopes@), mkdir_full_path(root@, args.path@)) ==> (r matches Ok(p) && p@ == mkdir_full_path(root@, args.path@)),
            !contains_seq(args.path@, ".."@) && is_prefix("/"@, args.path@) && !in_scope(views(permissions.scopes@), mkdir_full_path(root@, args.path@)) ==> (r matches Err(e) && e.is(
                ErrorKind::Unauthorized,
                "tool_failed"@,
                out_of_scope_message(mkdir_full_path(root@, args.path@), views(permissions.scopes@)),
            )),
    {
        if contains(args.path.as_str(), "..") {
            return Err(AppError::new(ErrorKind::Validation, "tool_failed", concat3("Path must not contain '..': '", args.path.as_str(), "'")));
        }
        if !starts_with(args.path.as_str(), "/") {
            return Err(AppError::new(ErrorKind::Validation, "tool_failed", concat3("Path must be absolute: '", args.path.as_str(), "'")));
        }
        let sub = trim_start_matches_char(args.path.as_str(), '/');
        let full = join_path(root, sub.as_str());
        if !check_scope(permissions, full.as_str()) {
            return Err(AppError::new(ErrorKind::Unauthorized, "tool_failed", scope_error_message(permissions, full.as_str())));
        }
        Ok(full)
    }

    /// What the mkdir tool answers: the resolved chroot `root` shown
    /// relative to `chroot`.
    pub fn created_message(root: &str, chroot: &str) -> (r: String)
        ensures
            r@ == "Created directory '"@ + relative_to(root@, chroot@) + "'"@,
    {
        let shown = relative_display(root, chroot);
        concat3("Created directory '", shown.as_str(), "'")
    }
}

} // verus!
