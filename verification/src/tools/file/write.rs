use vstd::prelude::*;

use crate::error::{AppError, ErrorKind};
use crate::paths::{path_file_name, path_parent, std_path_file_name, std_path_parent};
use crate::schema::{plain_field, property_named, Schema, SchemaField, SchemaFieldType};
use crate::text::{concat2, concat3, join, join_with, lines, lines_of, views};

verus! {

/// The first replaced line (0-based) when lines from line `start`
/// (1-based) are replaced among `n` lines; a start past the end replaces
/// nothing and adds after the last line.
pub open spec fn replace_start(n: int, start: u64) -> int {
    if start - 1 < n { start - 1 } else { n }
}

/// One past the last replaced line (0-based) when `length` lines from line
/// `start` (1-based) are replaced among `n` lines; without a length, every
/// line to the end is replaced.
pub open spec fn replace_end(n: int, start: u64, length: Option<u64>) -> int {
    match length {
        Some(l) => if start - 1 + l < n { start - 1 + l } else { n },
        None => n,
    }
}

/// The lines of `old` from `replace_start` up to `replace_end` replaced by
/// `new`.
pub open spec fn replaced_lines(old: Seq<Seq<char>>, start: u64, length: Option<u64>, new: Seq<Seq<char>>) -> Seq<Seq<char>> {
    let n = old.len() as int;
    old.subrange(0, replace_start(n, start)) + new + old.subrange(replace_end(n, start, length), n)
}

/// The content of a file after a write that succeeds.
pub open spec fn written(old: Seq<char>, start: Option<u64>, length: Option<u64>, append: bool, content: Seq<char>) -> Seq<char> {
    if append {
        old + content
    } else {
        match start {
            Some(s) => join_with(replaced_lines(lines_of(old), s, length, lines_of(content)), "\n"@),
            None => content,
        }
    }
}

/// Lines `start ..` of `old` up to `replace_end` replaced by the lines of
/// `content`, joined by `\n`.
pub fn replace_lines_in_file(old: &str, start: u64, length: Option<u64>, content: &str) -> (r: String)
    requires
        start >= 1,
    ensures
        r@ == join_with(replaced_lines(lines_of(old@), start, length, lines_of(content@)), "\n"@),
{
    let old_lines = lines(old);
    let new_lines = lines(content);
    let n = old_lines.len();
    let st: usize = if ((start - 1) as u128) < (n as u128) { (start - 1) as usize } else { n };
    let end: usize = match length {
        Some(l) => if ((start - 1) as u128) + (l as u128) < (n as u128) { ((start - 1) + l) as usize } else { n },
        None => n,
    };
    let ghost target = replaced_lines(views(old_lines@), start, length, views(new_lines@));
    let mut out: Vec<String> = Vec::new();
    let mut i: usize = 0;
    while i < st
        invariant
            st <= n == old_lines.len(),
            i <= st,
            views(out@) == views(old_lines@).subrange(0, i as int),
        decreases st - i,
    {
        let ghost old_views = views(out@);
        out.push(old_lines[i].clone());
        proof {
            assert(views(out@) =~= old_views.push(old_lines@[i as int]@));
            assert(views(old_lines@).subrange(0, i + 1) =~= views(old_lines@).subrange(0, i as int).push(old_lines@[i as int]@));
        }
        i = i + 1;
    }
    let mut j: usize = 0;
    while j < new_lines.len()
        invariant
            st <= n == old_lines.len(),
            j <= new_lines.len(),
            views(out@) == views(old_lines@).subrange(0, st as int) + views(new_lines@).subrange(0, j as int),
        decreases new_lines.len() - j,
    {
        let ghost old_views = views(out@);
        out.push(new_lines[j].clone());
        proof {
            assert(views(out@) =~= old_views.push(new_lines@[j as int]@));
            assert(views(new_lines@).subrange(0, j + 1) =~= views(new_lines@).subrange(0, j as int).push(new_lines@[j as int]@));
        }
        j = j + 1;
    }
    assert(views(new_lines@).subrange(0, new_lines.len() as int) =~= views(new_lines@));
    let mut k: usize = end;
    while k < n
        invariant
            st <= n == old_lines.len(),
            end <= k <= n,
            views(out@) == views(old_lines@).subrange(0, st as int) + views(new_lines@) + views(old_lines@).subrange(end as int, k as int),
        decreases n - k,
    {
        let ghost old_views = views(out@);
        out.push(old_lines[k].clone());
        proof {
            assert(views(out@) =~= old_views.push(old_lines@[k as int]@));
            assert(views(old_lines@).subrange(end as int, k + 1) =~= views(old_lines@).subrange(end as int, k as int).push(old_lines@[k as int]@));
        }
        k = k + 1;
    }
    assert(views(out@) =~= target);
    join(&out, "\n")
}

/// Refuses to write to a directory.
pub fn open_file_for_writing(path: &str, is_dir: bool) -> (r: Result<(), AppError>)
    ensures
        is_dir <==> r is Err,
        is_dir ==> (r matches Err(e) && e.is(ErrorKind::Validation, "skill_failed"@, "Path '"@ + path@ + "' is a directory can not write to it"@)),
{
    if is_dir {
        return Err(AppError::new(ErrorKind::Validation, "skill_failed", concat3("Path '", path, "' is a directory can not write to it")));
    }
    Ok(())
}

/// The new content of the file at `path` (a directory when `is_dir`, else
/// holding `old`) after writing `content`: appended, replacing the lines
/// from `start` on, or replacing everything.
pub fn write_file(path: &str, is_dir: bool, old: &str, start: Option<u64>, length: Option<u64>, append: bool, content: &str) -> (r: Result<String, AppError>)
    ensures
        is_dir ==> (r matches Err(e) && e.is(ErrorKind::Validation, "skill_failed"@, "Path '"@ + path@ + "' is a directory can not write to it"@)),
        (!is_dir && !append && start == Some(0u64)) ==> (r matches Err(e) && e.is(ErrorKind::Validation, "skill_failed"@, "Start line number must be greater than 0"@)),
        (!is_dir && (append || start != Some(0u64))) ==> (r matches Ok(out) && out@ == written(old@, start, length, append, content@)),
{
    open_file_for_writing(path, is_dir)?;
    if append {
        return Ok(concat2(old, content));
    }
    match start {
        Some(s) => {
            if s == 0 {
                return Err(AppError::new(ErrorKind::Validation, "skill_failed", "Start line number must be greater than 0".to_owned()));
            }
            Ok(replace_lines_in_file(old, s, length, content))
        },
        None => Ok(content.to_owned()),
    }
}

/// The tool that writes files.
pub struct Write;

/// The arguments of the write tool.
pub struct WriteArguments {
    pub path: String,
    pub start: Option<u64>,
    pub length: Option<u64>,
    pub append: bool,
    pub content: String,
}

impl WriteArguments {
    /// The arguments that the write tool assumes where none are given.
    pub fn default() -> (a: WriteArguments)
        ensures
            a.path@ == "/"@,
            a.start is None,
            a.length is None,
            !a.append,
            a.content@ == ""@,
    {
        WriteArguments { path: "/".to_owned(), start: None, length: None, append: false, content: "".to_owned() }
    }
}

/// The parameters of the write tool.
pub open spec fn write_schema(s: Schema) -> bool {
    &&& s.name@ == "file_write"@
    &&& s.description@ == ""@
    &&& s.properties@.len() == 5
    &&& property_named(s.properties@[0], "path"@, true)
    &&& plain_field(s.properties@[0].field, SchemaFieldType::String, "Absolute path within the current chroot to file."@)
    &&& property_named(s.properties@[1], "start"@, false)
    &&& plain_field(s.properties@[1].field, SchemaFieldType::Integer, "Optional, start writing from this line number (1-based)."@)
    &&& property_named(s.properties@[2], "length"@, false)
    &&& plain_field(s.properties@[2].field, SchemaFieldType::Integer, "Optional, number of lines to replace starting from the start line number."@)
    &&& property_named(s.properties@[3], "append"@, false)
    &&& plain_field(s.properties@[3].field, SchemaFieldType::Boolean, "Append to the file instead of overwriting."@)
    &&& property_named(s.properties@[4], "content"@, true)
    &&& plain_field(s.properties@[4].field, SchemaFieldType::String, "Content to write to the file."@)
}

impl Write {
    pub fn name(&self) -> (r: String)
        ensures
            r@ == "file_write"@,
    {
        "file_write".to_owned()
    }

    pub fn description(&self) -> (r: String)
        ensures
            r@ == "Writes a file to the filesystem"@,
    {
        "Writes a file to the filesystem".to_owned()
    }

    pub fn schema(&self) -> (s: Schema)
        ensures
            write_schema(s),
    {
        let mut schema = Schema::new("file_write", "");
        schema.add_property(
            "path",
            true,
            SchemaField::new(SchemaFieldType::String, "Absolute path within the current chroot to file.", None),
        );
        schema.add_property(
            "start",
            false,
            SchemaField::new(SchemaFieldType::Integer, "Optional, start writing from this line number (1-based).", None),
        );
        schema.add_property(
            "length",
            false,
            SchemaField::new(SchemaFieldType::Integer, "Optional, number of lines to replace starting from the start line number.", None),
        );
        schema.add_property(
            "append",
            false,
            SchemaField::new(SchemaFieldType::Boolean, "Append to the file instead of overwriting.", None),
        );
        schema.add_property(
            "content",
            true,
            SchemaField::new(SchemaFieldType::String, "Content to write to the file.", None),
        );
        schema
    }

    /// The directory and the file name that `path` names; the directory is
    /// checked and resolved before the file name is joined to it.
    pub fn split_target(path: &str) -> (r: Result<(String, String), AppError>)
        ensures
            std_path_parent(path@) is None ==> (r matches Err(e) && e.is(ErrorKind::Validation, "tool_failed"@, "Path '"@ + path@ + "' has no parent directory"@)),
            (std_path_parent(path@) is Some && std_path_file_name(path@) is None) ==> (r matches Err(e) && e.is(ErrorKind::Validation, "tool_failed"@, "Path '"@ + path@ + "' has no file name"@)),
            (std_path_parent(path@) is Some && std_path_file_name(path@) is Some) ==> (r matches Ok((parent, child)) && Some(parent@) == std_path_parent(path@) && Some(child@) == std_path_file_name(path@)),
    {
        let parent = match path_parent(path) {
            Some(p) => p,
            None => {
                return Err(AppError::new(ErrorKind::Validation, "tool_failed", concat3("Path '", path, "' has no parent directory")));
            },
        };
        let child = match path_file_name(path) {
            Some(c) => c,
            None => {
                return Err(AppError::new(ErrorKind::Validation, "tool_failed", concat3("Path '", path, "' has no file name")));
            },
        };
        Ok((parent, child))
    }

    /// What the write tool answers once the file at `path` is written.
    pub fn success_message(path: &str) -> (r: String)
        ensures
            r@ == "Successfully wrote to file '"@ + path@ + "'"@,
    {
        concat3("Successfully wrote to file '", path, "'")
    }
}


/// Overwriting a file (no start line, no append) and reading it whole gives
/// back exactly what was written.
pub proof fn overwrite_then_read(old: Seq<char>, length: Option<u64>, content: Seq<char>)
    ensures
        crate::tools::file::read::read_result(written(old, None, length, false, content), None, None) == content,
{
}

/// Appending to a file and reading it whole gives the old content followed
/// by what was appended.
pub proof fn append_then_read(old: Seq<char>, start: Option<u64>, length: Option<u64>, content: Seq<char>)
    ensures
        crate::tools::file::read::read_result(written(old, start, length, true, content), None, None) == old + content,
{
}

} // verus!
