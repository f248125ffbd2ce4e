use vstd::prelude::*;

use crate::error::{AppError, ErrorKind};
use crate::schema::{plain_field, property_named, Schema, SchemaField, SchemaFieldType};
use crate::text::{concat3, join, join_with, lines, lines_of, views};

verus! {

/// The first line (1-based) that a read with `start` begins at.
pub open spec fn first_line(start: Option<u64>) -> int {
    match start {
        Some(s) => s as int,
        None => 1,
    }
}

/// The 0-based index of the first selected line.
pub open spec fn sel_lo(start: Option<u64>) -> int {
    let s = first_line(start);
    if s == 0 { 0 } else { s - 1 }
}

/// One past the 0-based index of the last selected line, among `n` lines,
/// when `last` is the number of the last line to select.
pub open spec fn sel_hi(n: int, last: Option<u64>) -> int {
    match last {
        Some(e) => if e < n { e as int } else { n },
        None => n,
    }
}

/// The lines numbered `start ..= last` (1-based) of `all`; without `start`
/// from the first line, without `last` to the end.
pub open spec fn selected_lines(all: Seq<Seq<char>>, start: Option<u64>, last: Option<u64>) -> Seq<Seq<char>> {
    let lo = sel_lo(start);
    let hi = sel_hi(all.len() as int, last);
    if lo < hi {
        all.subrange(lo, hi)
    } else {
        Seq::empty()
    }
}

/// What a read of `content` from line `start` to line `last` yields: the
/// whole content when neither is given, else the selected lines joined by
/// `\n`.
pub open spec fn read_result(content: Seq<char>, start: Option<u64>, last: Option<u64>) -> Seq<char> {
    if start is None && last is None {
        content
    } else {
        join_with(selected_lines(lines_of(content), start, last), "\n"@)
    }
}

/// The part of reading a file that computes: the selected lines of its
/// `content`.
pub fn read_lines(content: &str, start: Option<u64>, last: Option<u64>) -> (r: String)
    ensures
        r@ == read_result(content@, start, last),
{
    if start.is_none() && last.is_none() {
        return content.to_owned();
    }
    let all = lines(content);
    let n = all.len();
    let s: u64 = match start {
        Some(s) => s,
        None => 1,
    };
    let lo: u64 = if s == 0 { 0 } else { s - 1 };
    let hi: u64 = match last {
        Some(e) => if (e as u128) < (n as u128) { e } else { n as u64 },
        None => n as u64,
    };
    let ghost sel = selected_lines(views(all@), start, last);
    let mut picked: Vec<String> = Vec::new();
    if lo < hi {
        let mut i: usize = lo as usize;
        let end: usize = hi as usize;
        while i < end
            invariant
                lo <= i <= end,
                end == hi,
                hi <= n,
                n == all.len(),
                lo < hi,
                sel == views(all@).subrange(lo as int, hi as int),
                views(picked@) == views(all@).subrange(lo as int, i as int),
            decreases end - i,
        {
            let ghost old_views = views(picked@);
            picked.push(all[i].clone());
            proof {
                assert(views(picked@) =~= old_views.push(all@[i as int]@));
                assert(views(all@).subrange(lo as int, i + 1) =~= views(all@).subrange(lo as int, i as int).push(all@[i as int]@));
            }
            i = i + 1;
        }
        assert(views(picked@) =~= sel);
    } else {
        assert(views(picked@) =~= sel);
    }
    join(&picked, "\n")
}

/// Reads the file at `path` whose kind and content the caller found: an
/// error unless it is a file, else the lines from `start` to `last`.
pub fn read_file(path: &str, is_file: bool, content: &str, start: Option<u64>, last: Option<u64>) -> (r: Result<String, AppError>)
    ensures
        !is_file ==> (r matches Err(e) && e.is(ErrorKind::Validation, "tool_failed"@, "Path '"@ + path@ + "' is not a file"@)),
        is_file ==> (r matches Ok(out) && out@ == read_result(content@, start, last)),
{
    if !is_file {
        return Err(AppError::new(ErrorKind::Validation, "tool_failed", concat3("Path '", path, "' is not a file")));
    }
    Ok(read_lines(content, start, last))
}

/// The tool that reads files.
pub struct Read;

/// The arguments of the read tool: `start` and `end` are the first and the
/// last line (1-based) to read.
pub struct ReadArguments {
    pub path: String,
    pub start: Option<u64>,
    pub end: Option<u64>,
}

/// The parameters of the read tool.
pub open spec fn read_schema(s: Schema) -> bool {
    &&& s.name@ == "file_read"@
    &&& s.description@ == ""@
    &&& s.properties@.len() == 3
    &&& property_named(s.properties@[0], "path"@, true)
    &&& plain_field(s.properties@[0].field, SchemaFieldType::String, "Absolute path within the current chroot to file."@)
    &&& property_named(s.properties@[1], "start"@, false)
    &&& plain_field(s.properties@[1].field, SchemaFieldType::Integer, "Optional, start reading from this line number (1-based)."@)
    &&& property_named(s.properties@[2], "end"@, false)
    &&& plain_field(s.properties@[2].field, SchemaFieldType::Integer, "Optional, end reading at this line number (1-based)."@)
}

impl Read {
    pub fn name(&self) -> (r: String)
        ensures
            r@ == "file_read"@,
    {
        "file_read".to_owned()
    }

    pub fn description(&self) -> (r: String)
        ensures
            r@ == "Reads files from the filesystem"@,
    {
        "Reads files from the filesystem".to_owned()
    }

    pub fn schema(&self) -> (s: Schema)
        ensures
            read_schema(s),
    {
        let mut schema = Schema::new("file_read", "");
        schema.add_property(
            "path",
            true,
            SchemaField::new(SchemaFieldType::String, "Absolute path within the current chroot to file.", None),
        );
        schema.add_property(
            "start",
            false,
            SchemaField::new(SchemaFieldType::Integer, "Optional, start reading from this line number (1-based).", None),
        );
        schema.add_property(
            "end",
            false,
            SchemaField::new(SchemaFieldType::Integer, "Optional, end reading at this line number (1-based).", None),
        );
        schema
    }
}


/// Reading lines `s ..= e` (1-based, `s` a line of the text) gives exactly
/// the lines from `s` up to `e`, or up to the text's last line when `e`
/// reaches past it: `min(e, n) - s + 1` lines, the `k`-th of them being
/// line `s + k`, joined by newlines. So a read whose end reaches the end of
/// the text keeps the text's last line.
pub proof fn read_range_law(content: Seq<char>, s: u64, e: u64)
    requires
        1 <= s <= lines_of(content).len(),
        s <= e,
    ensures
        ({
            let all = lines_of(content);
            let n = all.len() as int;
            let last = if e < n { e as int } else { n };
            let sel = selected_lines(all, Some(s), Some(e));
            &&& sel.len() == last - s + 1
            &&& forall|k: int| 0 <= k < sel.len() ==> #[trigger] sel[k] == all[s - 1 + k]
            &&& (e >= n ==> sel.last() == all.last())
            &&& read_result(content, Some(s), Some(e)) == join_with(all.subrange(s - 1, last), "\n"@)
        }),
{
    let all = lines_of(content);
    let n = all.len() as int;
    let last = if e < n { e as int } else { n };
    assert(selected_lines(all, Some(s), Some(e)) =~= all.subrange(s - 1, last));
}

/// Reading up to a line `e` at or past the text's last line, from the
/// start, gives every line of the text.
pub proof fn read_to_end_law(content: Seq<char>, e: u64)
    requires
        e >= lines_of(content).len(),
    ensures
        read_result(content, None, Some(e)) == join_with(lines_of(content), "\n"@),
{
    let all = lines_of(content);
    if all.len() > 0 {
        assert(selected_lines(all, None, Some(e)) =~= all);
    } else {
        assert(selected_lines(all, None, Some(e)) =~= all);
    }
}

} // verus!
