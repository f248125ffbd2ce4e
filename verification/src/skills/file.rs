use vstd::prelude::*;

use crate::error::{AppError, ErrorKind};
use crate::paths::{path_file_name, path_parent, std_path_file_name, std_path_parent};
use crate::schema::{enum_field, plain_field, property_named, strings_view, Schema, SchemaField, SchemaFieldType};
use crate::skills::models::{boolean_argument, integer_argument, text_argument, Call, Skill, SkillPermission};
use crate::text::{
    concat2, concat3, is_prefix, join, join_with, owned, starts_with, str_eq, trim_end, trim_end_matches_char,
    trim_start, trim_start_matches, trim_start_matches_char, trim_start_seq, views,
};
use crate::tools::file::read::{read_lines, read_result};

verus! {

/// How many entries a listing holds before it is cut off.
pub const MAX_FILES_LISTED: u64 = 1000;

/// The built-in skill that reads, lists, writes, deletes and creates files
/// and directories.
pub struct File;

/// The values of the `action` parameter.
pub open spec fn file_actions() -> Seq<Seq<char>> {
    seq!["read"@, "list"@, "write"@, "delete"@, "mkdir"@]
}

/// The parameters of the file skill.
pub open spec fn file_skill_schema(s: Schema) -> bool {
    &&& s.name@ == "file"@
    &&& s.description@ == ""@
    &&& s.properties@.len() == 7
    &&& property_named(s.properties@[0], "action"@, true)
    &&& enum_field(s.properties@[0].field, "Action to perform file and directory operations. Delete on a directory will delete all files and subdirectories."@, file_actions())
    &&& property_named(s.properties@[1], "path"@, true)
    &&& plain_field(s.properties@[1].field, SchemaFieldType::String, "Path within the current chroot to the file or directory."@)
    &&& property_named(s.properties@[2], "start"@, false)
    &&& plain_field(s.properties@[2].field, SchemaFieldType::Integer, "Start line for reading/writing, if unset reads/overwrites from beginning."@)
    &&& property_named(s.properties@[3], "length"@, false)
    &&& plain_field(s.properties@[3].field, SchemaFieldType::Integer, "Number of lines to read/write, if unset reads/overwrites to end."@)
    &&& property_named(s.properties@[4], "recursive"@, false)
    &&& plain_field(s.properties@[4].field, SchemaFieldType::Boolean, "Whether to list files in subdirectories too."@)
    &&& property_named(s.properties@[5], "append"@, false)
    &&& plain_field(s.properties@[5].field, SchemaFieldType::Boolean, "Whether to append to the file instead of overwriting it (only for write action)."@)
    &&& property_named(s.properties@[6], "content"@, false)
    &&& plain_field(s.properties@[6].field, SchemaFieldType::String, "Content to write to the file, only used for 'write' action."@)
}

/// The five action names, as a vector.
fn action_values() -> (v: Vec<String>)
    ensures
        strings_view(v@) == file_actions(),
{
    let mut v: Vec<String> = Vec::new();
    v.push(owned("read"));
    v.push(owned("list"));
    v.push(owned("write"));
    v.push(owned("delete"));
    v.push(owned("mkdir"));
    assert(strings_view(v@) =~= file_actions());
    v
}

impl File {
    pub fn name(&self) -> (r: String)
        ensures
            r@ == "file"@,
    {
        owned("file")
    }

    pub fn description(&self) -> (r: String)
        ensures
            r@ == "A skill for reading/writing files and listing directories."@,
    {
        owned("A skill for reading/writing files and listing directories.")
    }

    pub fn schema(&self) -> (s: Schema)
        ensures
            file_skill_schema(s),
    {
        let mut schema = Schema::new("file", "");
        schema.add_property(
            "action",
            true,
            SchemaField::new(
                SchemaFieldType::String,
                "Action to perform file and directory operations. Delete on a directory will delete all files and subdirectories.",
                Some(action_values()),
            ),
        );
        schema.add_property(
            "path",
            true,
            SchemaField::new(SchemaFieldType::String, "Path within the current chroot to the file or directory.", None),
        );
        schema.add_property(
            "start",
            false,
            SchemaField::new(SchemaFieldType::Integer, "Start line for reading/writing, if unset reads/overwrites from beginning.", None),
        );
        schema.add_property(
            "length",
            false,
            SchemaField::new(SchemaFieldType::Integer, "Number of lines to read/write, if unset reads/overwrites to end.", None),
        );
        schema.add_property(
            "recursive",
            false,
            SchemaField::new(SchemaFieldType::Boolean, "Whether to list files in subdirectories too.", None),
        );
        schema.add_property(
            "append",
            false,
            SchemaField::new(
                SchemaFieldType::Boolean,
                "Whether to append to the file instead of overwriting it (only for write action).",
                None,
            ),
        );
        schema.add_property(
            "content",
            false,
            SchemaField::new(SchemaFieldType::String, "Content to write to the file, only used for 'write' action.", None),
        );
        schema
    }

    /// How the skill presents itself.
    pub fn as_skill(&self) -> (s: Skill)
        ensures
            s.name@ == "file"@,
            s.description@ == "A skill for reading/writing files and listing directories."@,
            file_skill_schema(s.parameters),
    {
        Skill { name: self.name(), description: self.description(), parameters: self.schema() }
    }
}

/// The arguments of a call of the file skill.
pub struct FileArguments {
    pub action: String,
    pub path: String,
    pub start: Option<u64>,
    pub length: Option<u64>,
    pub recursive: bool,
    pub append: bool,
    pub content: Option<String>,
}

/// A line count given as an argument: absent, or at least 1.
pub open spec fn count_ok(n: Option<i64>) -> bool {
    match n {
        Some(v) => v >= 1,
        None => true,
    }
}

/// A line count as an unsigned number.
pub open spec fn as_count(n: Option<i64>) -> Option<u64> {
    match n {
        Some(v) => Some(v as u64),
        None => None,
    }
}

/// The error of a call of the file skill with bad arguments.
fn invalid(message: &str) -> (e: AppError)
    ensures
        e.is(ErrorKind::Validation, "skill_failed"@, message@),
{
    AppError::new(ErrorKind::Validation, "skill_failed", owned(message))
}

impl File {
    /// Reads the arguments of `call`: `action` and `path` must be text,
    /// `start` and `length` (when integers) at least 1; other arguments of
    /// the wrong type count as absent.
    pub fn skill_call_to_arguments(call: &Call) -> (r: Result<FileArguments, AppError>)
        ensures
            ({
                let args = call.arguments@;
                if text_argument(args, "action"@) is None {
                    r matches Err(e) && e.is(ErrorKind::Validation, "skill_failed"@, "Missing required argument 'action'"@)
                } else if text_argument(args, "path"@) is None {
                    r matches Err(e) && e.is(ErrorKind::Validation, "skill_failed"@, "Missing required argument 'path'"@)
                } else if !count_ok(integer_argument(args, "start"@)) {
                    r matches Err(e) && e.is(ErrorKind::Validation, "skill_failed"@, "'start' must be >= 1"@)
                } else if !count_ok(integer_argument(args, "length"@)) {
                    r matches Err(e) && e.is(ErrorKind::Validation, "skill_failed"@, "'length' must be >= 1"@)
                } else {
                    r matches Ok(a) && {
                        &&& Some(a.action@) == text_argument(args, "action"@)
                        &&& Some(a.path@) == text_argument(args, "path"@)
                        &&& a.start == as_count(integer_argument(args, "start"@))
                        &&& a.length == as_count(integer_argument(args, "length"@))
                        &&& a.recursive == (boolean_argument(args, "recursive"@) == Some(true))
                        &&& a.append == (boolean_argument(args, "append"@) == Some(true))
                        &&& match a.content {
                            Some(c) => text_argument(args, "content"@) == Some(c@),
                            None => text_argument(args, "content"@) is None,
                        }
                    }
                }
            }),
    {
        let action = match call.text_argument("action") {
            Some(a) => a,
            None => {
                return Err(invalid("Missing required argument 'action'"));
            },
        };
        let path = match call.text_argument("path") {
            Some(p) => p,
            None => {
                return Err(invalid("Missing required argument 'path'"));
            },
        };
        let start: Option<u64> = match call.integer_argument("start") {
            Some(s) => {
                if s <= 0 {
                    return Err(invalid("'start' must be >= 1"));
                }
                Some(s as u64)
            },
            None => None,
        };
        let length: Option<u64> = match call.integer_argument("length") {
            Some(l) => {
                if l <= 0 {
                    return Err(invalid("'length' must be >= 1"));
                }
                Some(l as u64)
            },
            None => None,
        };
        let recursive = match call.boolean_argument("recursive") {
            Some(b) => b,
            None => false,
        };
        let append = match call.boolean_argument("append") {
            Some(b) => b,
            None => false,
        };
        let content = call.text_argument("content");
        Ok(FileArguments { action, path, start, length, recursive, append, content })
    }
}

/// What a call of the file skill asks to do, once its role is checked.
pub enum FileAction {
    Read { path: String, start: Option<u64>, length: Option<u64> },
    List { path: String, recursive: bool },
    Write { parent: String, file_name: String, content: String, start: Option<u64>, length: Option<u64>, append: bool },
    Delete { path: String },
    Mkdir { parent: String, dir_name: String },
}

/// Whether `roles` holds `role`.
pub fn has_role(roles: &Vec<String>, role: &str) -> (b: bool)
    ensures
        b == strings_view(roles@).contains(role@),
{
    let mut i: usize = 0;
    while i < roles.len()
        invariant
            i <= roles@.len(),
            forall|k: int| 0 <= k < i ==> #[trigger] roles@[k]@ != role@,
        decreases roles.len() - i,
    {
        if str_eq(roles[i].as_str(), role) {
            assert(strings_view(roles@)[i as int] == role@);
            return true;
        }
        i = i + 1;
    }
    proof {
        if strings_view(roles@).contains(role@) {
            let k = choose|k: int| 0 <= k < strings_view(roles@).len() && strings_view(roles@)[k] == role@;
            assert(roles@[k]@ == role@);
        }
    }
    false
}

/// The error of an action without its role.
fn unauthorized(message: &str) -> (e: AppError)
    ensures
        e.is(ErrorKind::Unauthorized, "skill_failed"@, message@),
{
    AppError::new(ErrorKind::Unauthorized, "skill_failed", owned(message))
}

/// The error of a path that names no file in a directory.
fn invalid_path(path: &str) -> (e: AppError)
    ensures
        e.is(ErrorKind::Validation, "skill_failed"@, "Invalid path '"@ + path@ + "'"@),
{
    AppError::new(ErrorKind::Validation, "skill_failed", concat3("Invalid path '", path, "'"))
}

/// The message of an action refused for want of a role.
pub open spec fn role_message(action: Seq<char>) -> Seq<char> {
    if action == "read"@ {
        "Can not read files without role 'read'."@
    } else if action == "list"@ {
        "Can not list directories without role 'list'."@
    } else if action == "write"@ {
        "Can not write files without role 'write'."@
    } else if action == "delete"@ {
        "Can not delete files without role 'delete'."@
    } else {
        "Can not create directories without role 'mkdir'."@
    }
}

/// Whether `a` is what `args` asks for, once its role is granted.
pub open spec fn action_for(a: FileAction, args: FileArguments) -> bool {
    match a {
        FileAction::Read { path, start, length } => args.action@ == "read"@ && path@ == args.path@ && start == args.start && length == args.length,
        FileAction::List { path, recursive } => args.action@ == "list"@ && path@ == args.path@ && recursive == args.recursive,
        FileAction::Write { parent, file_name, content, start, length, append } => {
            &&& args.action@ == "write"@
            &&& args.content == Some(content)
            &&& std_path_parent(args.path@) == Some(parent@)
            &&& std_path_file_name(args.path@) == Some(file_name@)
            &&& start == args.start && length == args.length && append == args.append
        },
        FileAction::Delete { path } => args.action@ == "delete"@ && path@ == args.path@,
        FileAction::Mkdir { parent, dir_name } => {
            &&& args.action@ == "mkdir"@
            &&& std_path_parent(args.path@) == Some(parent@)
            &&& std_path_file_name(args.path@) == Some(dir_name@)
        },
    }
}

/// Whether `action` is one that the skill knows.
pub open spec fn known_action(action: Seq<char>) -> bool {
    file_actions().contains(action)
}

impl File {
    /// Decides what a call with `args` does under `permissions`: the
    /// action must be known and granted as a role; writing needs content,
    /// and writing and creating need a path with a parent and a last part.
    pub fn plan(args: FileArguments, permissions: &SkillPermission) -> (r: Result<FileAction, AppError>)
        ensures
            ({
                let roles = strings_view(permissions.roles@);
                if !known_action(args.action@) {
                    r matches Err(e) && e.is(ErrorKind::Validation, "skill_failed"@, "Unsupported action '"@ + args.action@ + "'"@)
                } else if !roles.contains(args.action@) {
                    r matches Err(e) && e.is(ErrorKind::Unauthorized, "skill_failed"@, role_message(args.action@))
                } else if args.action@ == "write"@ && args.content is None {
                    r matches Err(e) && e.is(ErrorKind::Validation, "skill_failed"@, "Missing 'content' argument for write action."@)
                } else if (args.action@ == "write"@ || args.action@ == "mkdir"@)
                    && (std_path_parent(args.path@) is None || std_path_file_name(args.path@) is None) {
                    r matches Err(e) && e.is(ErrorKind::Validation, "skill_failed"@, "Invalid path '"@ + args.path@ + "'"@)
                } else {
                    r matches Ok(a) && action_for(a, args)
                }
            }),
    {
        proof {
            reveal_strlit("read");
            reveal_strlit("list");
            reveal_strlit("write");
            reveal_strlit("delete");
            reveal_strlit("mkdir");
        }
        assert("read"@.len() == 4 && "list"@.len() == 4 && "write"@.len() == 5 && "delete"@.len() == 6 && "mkdir"@.len() == 5);
        assert("write"@[0] == 'w' && "mkdir"@[0] == 'm');
        let ghost acts = file_actions();
        assert(acts[0] == "read"@ && acts[1] == "list"@ && acts[2] == "write"@ && acts[3] == "delete"@ && acts[4] == "mkdir"@);
        assert(acts.len() == 5);
        let FileArguments { action, path, start, length, recursive, append, content } = args;
        let ghost args_action = action@;
        let ghost args_path = path@;
        if str_eq(action.as_str(), "read") {
            assert(acts.contains(action@)) by { assert(acts[0] == action@); }
            assert(action@ != "write"@ && action@ != "mkdir"@);
            if !has_role(&permissions.roles, "read") {
                return Err(unauthorized("Can not read files without role 'read'."));
            }
            Ok(FileAction::Read { path, start, length })
        } else if str_eq(action.as_str(), "list") {
            assert(acts.contains(action@)) by { assert(acts[1] == action@); }
            assert(action@ != "write"@ && action@ != "mkdir"@);
            if !has_role(&permissions.roles, "list") {
                return Err(unauthorized("Can not list directories without role 'list'."));
            }
            Ok(FileAction::List { path, recursive })
        } else if str_eq(action.as_str(), "write") {
            assert(acts.contains(action@)) by { assert(acts[2] == action@); }
            if !has_role(&permissions.roles, "write") {
                return Err(unauthorized("Can not write files without role 'write'."));
            }
            let content = match content {
                Some(c) => c,
                None => {
                    return Err(invalid("Missing 'content' argument for write action."));
                },
            };
            let parent = match path_parent(path.as_str()) {
                Some(p) => p,
                None => {
                    return Err(invalid_path(path.as_str()));
                },
            };
            let file_name = match path_file_name(path.as_str()) {
                Some(f) => f,
                None => {
                    return Err(invalid_path(path.as_str()));
                },
            };
            Ok(FileAction::Write { parent, file_name, content, start, length, append })
        } else if str_eq(action.as_str(), "delete") {
            assert(acts.contains(action@)) by { assert(acts[3] == action@); }
            assert(action@ != "write"@ && action@ != "mkdir"@);
            if !has_role(&permissions.roles, "delete") {
                return Err(unauthorized("Can not delete files without role 'delete'."));
            }
            Ok(FileAction::Delete { path })
        } else if str_eq(action.as_str(), "mkdir") {
            assert(acts.contains(action@)) by { assert(acts[4] == action@); }
            if !has_role(&permissions.roles, "mkdir") {
                return Err(unauthorized("Can not create directories without role 'mkdir'."));
            }
            let parent = match path_parent(path.as_str()) {
                Some(p) => p,
                None => {
                    return Err(invalid_path(path.as_str()));
                },
            };
            let dir_name = match path_file_name(path.as_str()) {
                Some(f) => f,
                None => {
                    return Err(invalid_path(path.as_str()));
                },
            };
            Ok(FileAction::Mkdir { parent, dir_name })
        } else {
            proof {
                assert(!known_action(args_action)) by {
                    if acts.contains(args_action) {
                        let k = choose|k: int| 0 <= k < acts.len() && acts[k] == args_action;
                        assert(k == 0 || k == 1 || k == 2 || k == 3 || k == 4);
                    }
                }
            }
            Err(AppError::new(ErrorKind::Validation, "skill_failed", concat3("Unsupported action '", action.as_str(), "'")))
        }
    }
}

/// The directory that a scope grants under the chroot, before it is
/// resolved: the chroot without trailing `/`, a `/`, and the scope without
/// leading or trailing `/`.
pub open spec fn scope_root(chroot: Seq<char>, scope: Seq<char>) -> Seq<char> {
    trim_end(chroot, '/') + "/"@ + trim_end(trim_start(scope, '/'), '/')
}

/// The directories that the scopes of `permissions` grant, to be resolved.
pub fn scope_roots(chroot: &str, permissions: &SkillPermission) -> (r: Vec<String>)
    ensures
        r@.len() == permissions.scopes@.len(),
        forall|i: int| 0 <= i < r@.len() ==> (#[trigger] r@[i])@ == scope_root(chroot@, permissions.scopes@[i]@),
{
    let root = trim_end_matches_char(chroot, '/');
    let mut out: Vec<String> = Vec::new();
    let mut i: usize = 0;
    while i < permissions.scopes.len()
        invariant
            i <= permissions.scopes@.len(),
            root@ == trim_end(chroot@, '/'),
            out@.len() == i,
            forall|k: int| 0 <= k < i ==> (#[trigger] out@[k])@ == scope_root(chroot@, permissions.scopes@[k]@),
        decreases permissions.scopes.len() - i,
    {
        let inner = trim_start_matches_char(permissions.scopes[i].as_str(), '/');
        let scope = trim_end_matches_char(inner.as_str(), '/');
        out.push(concat3(root.as_str(), "/", scope.as_str()));
        i = i + 1;
    }
    out
}

/// Whether a path, resolved to `path` (`None` when it could not be), lies
/// within a granted scope, each resolved to `Some` (or `None` when it could
/// not be). Without scopes every resolvable path is granted.
pub open spec fn access_granted(path: Option<Seq<char>>, scopes: Seq<Option<Seq<char>>>) -> bool {
    match path {
        None => false,
        Some(p) => scopes.len() == 0 || exists|i: int| 0 <= i < scopes.len() && scope_admits(#[trigger] scopes[i], p),
    }
}

/// Whether a resolved scope (`None` when it could not be resolved) holds
/// the resolved path `p`.
pub open spec fn scope_admits(scope: Option<Seq<char>>, p: Seq<char>) -> bool {
    match scope {
        Some(s) => is_prefix(s, p),
        None => false,
    }
}

/// Optional strings by their contents.
pub open spec fn options_view(v: Seq<Option<String>>) -> Seq<Option<Seq<char>>> {
    v.map_values(|o: Option<String>| match o {
        Some(s) => Some(s@),
        None => None,
    })
}

/// Whether the resolved `path` lies within one of the resolved scopes.
pub fn has_access_to_path(path: Option<&str>, scopes: &Vec<Option<String>>) -> (b: bool)
    ensures
        b == access_granted(match path { Some(p) => Some(p@), None => None }, options_view(scopes@)),
{
    let p = match path {
        Some(p) => p,
        None => {
            return false;
        },
    };
    if scopes.len() == 0 {
        return true;
    }
    let ghost sv = options_view(scopes@);
    let mut i: usize = 0;
    while i < scopes.len()
        invariant
            i <= scopes@.len(),
            sv == options_view(scopes@),
            path == Some(p),
            forall|k: int| 0 <= k < i ==> !scope_admits(#[trigger] sv[k], p@),
        decreases scopes.len() - i,
    {
        match &scopes[i] {
            Some(s) => {
                if starts_with(p, s.as_str()) {
                    assert(sv[i as int] == Some(s@));
                    assert(scope_admits(sv[i as int], p@));
                    return true;
                }
                assert(sv[i as int] == Some(s@));
            },
            None => {
                assert(sv[i as int] is None);
            },
        }
        i = i + 1;
    }
    false
}

/// The error of a path outside the granted scopes.
pub fn access_denied(path: &str) -> (e: AppError)
    ensures
        e.is(ErrorKind::Validation, "skill_failed"@, "Access denied to path '"@ + path@ + "'"@),
{
    AppError::new(ErrorKind::Validation, "skill_failed", concat3("Access denied to path '", path, "'"))
}

/// The lines of `content` that a read from line `start` (default 1) of
/// `length` lines (default: to the end) gives, joined by newlines; the
/// whole content when neither is given.
pub fn read_selection(content: &str, start: Option<u64>, length: Option<u64>) -> (r: String)
    requires
        match length {
            Some(l) => {
                let f = match start { Some(s) => s as int, None => 1 };
                f + l >= 1 && f + l - 1 <= u64::MAX
            },
            None => true,
        },
    ensures
        r@ == read_result(content@, start, match length {
            Some(l) => Some((match start { Some(s) => s as int, None => 1 } + l - 1) as u64),
            None => None,
        }),
{
    let first: u64 = match start {
        Some(s) => s,
        None => 1,
    };
    let last: Option<u64> = match length {
        Some(l) => {
            if l >= 1 {
                Some(first + (l - 1))
            } else {
                Some(first - 1)
            }
        },
        None => None,
    };
    read_lines(content, start, last)
}

/// Adds `entry` to a listing; when the listing thereby reaches its limit,
/// marks it as cut off and tells the caller to stop.
pub fn record_listed(items: &mut Vec<String>, entry: String) -> (stop: bool)
    ensures
        stop == (old(items)@.len() + 1 >= MAX_FILES_LISTED),
        !stop ==> final(items)@ == old(items)@.push(entry),
        stop ==> final(items)@.len() == old(items)@.len() + 2
            && final(items)@.take(old(items)@.len() as int + 1) == old(items)@.push(entry)
            && final(items)@.last()@ == "[truncated]"@,
{
    items.push(entry);
    if items.len() as u64 >= MAX_FILES_LISTED {
        let ghost with_entry = items@;
        items.push(owned("[truncated]"));
        assert(items@.take(with_entry.len() as int) =~= with_entry);
        true
    } else {
        false
    }
}

/// The listing as answered: the entries within the granted scopes, each
/// without the chroot (trailing `/` removed) in front, one per line.
pub open spec fn listing(items: Seq<Seq<char>>, granted: Seq<bool>, chroot: Seq<char>) -> Seq<char> {
    join_with(shown_items(items, granted, chroot), "\n"@)
}

/// The entries within the granted scopes, without the chroot in front.
pub open spec fn shown_items(items: Seq<Seq<char>>, granted: Seq<bool>, chroot: Seq<char>) -> Seq<Seq<char>>
    decreases items.len(),
{
    if items.len() == 0 || granted.len() < items.len() {
        Seq::empty()
    } else {
        let rest = shown_items(items.drop_last(), granted.take(items.len() - 1), chroot);
        if granted[items.len() - 1] {
            rest.push(trim_start_seq(items.last(), trim_end(chroot, '/')))
        } else {
            rest
        }
    }
}

/// Answers a listing of `items`, of which those with `granted` set lie
/// within the granted scopes.
pub fn listing_answer(items: &Vec<String>, granted: &Vec<bool>, chroot: &str) -> (r: String)
    requires
        granted@.len() == items@.len(),
    ensures
        r@ == listing(views(items@), granted@, chroot@),
{
    let prefix = trim_end_matches_char(chroot, '/');
    let mut shown: Vec<String> = Vec::new();
    let mut i: usize = 0;
    while i < items.len()
        invariant
            i <= items@.len(),
            granted@.len() == items@.len(),
            prefix@ == trim_end(chroot@, '/'),
            views(shown@) == shown_items(views(items@).take(i as int), granted@.take(i as int), chroot@),
        decreases items.len() - i,
    {
        let ghost before = views(shown@);
        let ghost its = views(items@).take(i as int + 1);
        let ghost gs = granted@.take(i as int + 1);
        assert(its.drop_last() =~= views(items@).take(i as int));
        assert(gs.take(i as int) =~= granted@.take(i as int));
        if granted[i] {
            shown.push(trim_start_matches(items[i].as_str(), prefix.as_str()));
            assert(views(shown@) =~= before.push(trim_start_seq(items@[i as int]@, trim_end(chroot@, '/'))));
        }
        i = i + 1;
    }
    assert(views(items@).take(items@.len() as int) =~= views(items@));
    assert(granted@.take(items@.len() as int) =~= granted@);
    join(&shown, "\n")
}

/// What the file skill answers once an action that changes files is done.
pub fn completed() -> (r: String)
    ensures
        r@ == "Action completed successfully √"@,
{
    owned("Action completed successfully √")
}

/// Where a file or directory is written or made: in the resolved parent
/// directory, under its last part.
pub fn target_in(parent: &str, name: &str) -> (r: String)
    ensures
        r@ == parent@ + "/"@ + name@,
{
    concat3(parent, "/", name)
}

} // verus!
