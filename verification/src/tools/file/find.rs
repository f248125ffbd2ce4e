use vstd::prelude::*;

use crate::error::{AppError, ErrorKind};
use crate::paths::{relative_display, relative_to};
use crate::pattern::{compile, is_match, regex_compile, regex_is_match, Pattern};
use crate::schema::{enum_field, plain_field, property_named, strings2, strings3, Schema, SchemaField, SchemaFieldType};
use crate::text::{chars_of, concat2, concat3, decimal, decimal_string, join, join_with, owned, views};
use crate::tools::file::search::{exclude_description, exclude_field};

verus! {

/// The tool that finds files and directories in a directory hierarchy.
pub struct Find;

/// The order in which found entries are listed.
#[derive(Debug, Clone, Copy, PartialEq, Eq, Structural)]
pub enum SortBy {
    Name,
    Size,
    Modified,
}

/// The kinds of directory entries.
#[derive(Debug, Clone, Copy, PartialEq, Eq, Structural)]
pub enum FileType {
    File,
    Directory,
    Symlink,
    Device,
    Fifo,
    Socket,
    Unknown,
}

/// The arguments of the find tool.
pub struct FindArguments {
    pub path: String,
    pub pattern: Option<String>,
    pub file_type: Option<FileType>,
    pub sort_by: SortBy,
    pub descending: bool,
    pub recursive: bool,
    pub max_results: u64,
    pub exclude: Vec<String>,
}

impl FindArguments {
    /// The arguments that the find tool assumes where none are given.
    pub fn default() -> (a: FindArguments)
        ensures
            a.path@ == "/"@,
            a.pattern is None,
            a.file_type is None,
            a.sort_by == SortBy::Name,
            !a.descending,
            a.recursive,
            a.max_results == 1000,
            views(a.exclude@) == seq![".git"@],
    {
        let mut exclude = Vec::new();
        exclude.push(".git".to_owned());
        assert(views(exclude@) =~= seq![".git"@]);
        FindArguments {
            path: "/".to_owned(),
            pattern: None,
            file_type: None,
            sort_by: SortBy::Name,
            descending: false,
            recursive: true,
            max_results: 1000,
            exclude,
        }
    }
}

/// What the file system says of a directory entry's type.
#[derive(Debug, Clone, Copy)]
pub struct EntryKind {
    pub is_file: bool,
    pub is_dir: bool,
    pub is_symlink: bool,
    pub is_block_device: bool,
    pub is_char_device: bool,
    pub is_fifo: bool,
    pub is_socket: bool,
}

/// A found entry: its full path, size in bytes, seconds since its last
/// modification, and type.
pub struct FileEntry {
    pub path: String,
    pub size: u64,
    pub modified: u64,
    pub file_type: FileType,
}

/// The parameters of the find tool.
pub open spec fn find_schema(s: Schema) -> bool {
    &&& s.name@ == "file_find"@
    &&& s.description@ == ""@
    &&& s.properties@.len() == 8
    &&& property_named(s.properties@[0], "path"@, true)
    &&& plain_field(s.properties@[0].field, SchemaFieldType::String, "Absolute path within the current chroot to directory to find in."@)
    &&& property_named(s.properties@[1], "pattern"@, false)
    &&& plain_field(s.properties@[1].field, SchemaFieldType::String, "Optional, only list directories and files with a name matching provided regex."@)
    &&& property_named(s.properties@[2], "file_type"@, false)
    &&& enum_field(s.properties@[2].field, "Optional, only list files or directories, defaults to both."@, seq!["file"@, "directory"@])
    &&& property_named(s.properties@[3], "sort_by"@, false)
    &&& enum_field(s.properties@[3].field, "Sort findings by, defaults to name."@, seq!["name"@, "size"@, "modified"@])
    &&& property_named(s.properties@[4], "descending"@, false)
    &&& plain_field(s.properties@[4].field, SchemaFieldType::Boolean, "Sort in descending order, defaults to false."@)
    &&& property_named(s.properties@[5], "recursive"@, false)
    &&& plain_field(s.properties@[5].field, SchemaFieldType::Boolean, "Recursively find files and directories, defaults to true."@)
    &&& property_named(s.properties@[6], "max_results"@, false)
    &&& plain_field(s.properties@[6].field, SchemaFieldType::Integer, "Maximum number of results to return, defaults to 1000."@)
    &&& property_named(s.properties@[7], "exclude"@, false)
    &&& s.properties@[7].field.field_type == SchemaFieldType::Array
    &&& s.properties@[7].field.description@ == exclude_description()
    &&& s.properties@[7].field.enum_values is None
    &&& s.properties@[7].field.items matches Some(it) && it.field_type == SchemaFieldType::String && it.description@ == "Name to exclude."@
}

/// The name that `Debug` gives a file type.
pub open spec fn type_label(t: FileType) -> Seq<char> {
    match t {
        FileType::File => "File"@,
        FileType::Directory => "Directory"@,
        FileType::Symlink => "Symlink"@,
        FileType::Device => "Device"@,
        FileType::Fifo => "Fifo"@,
        FileType::Socket => "Socket"@,
        FileType::Unknown => "Unknown"@,
    }
}

/// The name that `Debug` gives a file type.
pub fn file_type_name(t: FileType) -> (r: String)
    ensures
        r@ == type_label(t),
{
    match t {
        FileType::File => "File".to_owned(),
        FileType::Directory => "Directory".to_owned(),
        FileType::Symlink => "Symlink".to_owned(),
        FileType::Device => "Device".to_owned(),
        FileType::Fifo => "Fifo".to_owned(),
        FileType::Socket => "Socket".to_owned(),
        FileType::Unknown => "Unknown".to_owned(),
    }
}

/// The type of an entry, checked in this order; `None` when it is none of
/// them.
pub open spec fn classify(k: EntryKind) -> Option<FileType> {
    if k.is_file {
        Some(FileType::File)
    } else if k.is_dir {
        Some(FileType::Directory)
    } else if k.is_symlink {
        Some(FileType::Symlink)
    } else if k.is_block_device || k.is_char_device {
        Some(FileType::Device)
    } else if k.is_fifo {
        Some(FileType::Fifo)
    } else if k.is_socket {
        Some(FileType::Socket)
    } else {
        None
    }
}

/// Whether an entry of kind `k` passes the filter `t` (`None` for an
/// unsupported filter).
pub open spec fn type_filter(t: FileType, k: EntryKind) -> Option<bool> {
    match t {
        FileType::File => Some(k.is_file),
        FileType::Directory => Some(k.is_dir),
        FileType::Symlink => Some(k.is_symlink),
        FileType::Device => Some(k.is_block_device || k.is_char_device),
        FileType::Fifo => Some(k.is_fifo),
        FileType::Socket => Some(k.is_socket),
        FileType::Unknown => None,
    }
}

/// `a` sorts before `b` as strings do in Rust: character by character by
/// code point (the order of their UTF-8 bytes), a proper prefix first.
pub open spec fn seq_less(a: Seq<char>, b: Seq<char>) -> bool
    decreases a.len(),
{
    if b.len() == 0 {
        false
    } else if a.len() == 0 {
        true
    } else if a[0] != b[0] {
        (a[0] as int) < (b[0] as int)
    } else {
        seq_less(a.drop_first(), b.drop_first())
    }
}

pub proof fn lemma_seq_less_irreflexive(a: Seq<char>)
    ensures
        !seq_less(a, a),
    decreases a.len(),
{
    if a.len() > 0 {
        lemma_seq_less_irreflexive(a.drop_first());
    }
}

pub proof fn lemma_seq_less_transitive(a: Seq<char>, b: Seq<char>, c: Seq<char>)
    requires
        seq_less(a, b),
        seq_less(b, c),
    ensures
        seq_less(a, c),
    decreases a.len(),
{
    if a.len() > 0 && b.len() > 0 && c.len() > 0 && a[0] == b[0] && b[0] == c[0] {
        lemma_seq_less_transitive(a.drop_first(), b.drop_first(), c.drop_first());
    }
}

pub proof fn lemma_seq_less_total(a: Seq<char>, b: Seq<char>)
    ensures
        seq_less(a, b) || seq_less(b, a) || a == b,
    decreases a.len(),
{
    if a.len() > 0 && b.len() > 0 {
        if a[0] == b[0] {
            lemma_seq_less_total(a.drop_first(), b.drop_first());
            if a.drop_first() == b.drop_first() {
                assert(a =~= seq![a[0]] + a.drop_first());
                assert(b =~= seq![b[0]] + b.drop_first());
            }
        }
    } else if a.len() == 0 && b.len() == 0 {
        assert(a =~= b);
    }
}

/// `a` sorts before `b` by the chosen key.
pub open spec fn key_less(a: FileEntry, b: FileEntry, by: SortBy) -> bool {
    match by {
        SortBy::Name => seq_less(a.path@, b.path@),
        SortBy::Size => a.size < b.size,
        SortBy::Modified => a.modified < b.modified,
    }
}

/// Entry `i` comes before entry `j` in a stable sort by `by`: by key, and
/// by the order in which they came among equal keys.
pub open spec fn ranks_before(es: Seq<FileEntry>, by: SortBy, i: int, j: int) -> bool {
    key_less(es[i], es[j], by) || (!key_less(es[j], es[i], by) && i < j)
}

/// `order` lists the indices of `es` in the order of a stable sort by `by`.
pub open spec fn stable_order(es: Seq<FileEntry>, by: SortBy, order: Seq<usize>) -> bool {
    &&& order.len() == es.len()
    &&& order.no_duplicates()
    &&& forall|p: int| 0 <= p < order.len() ==> (#[trigger] order[p] as int) < es.len()
    &&& forall|p: int, q: int| 0 <= p < q < order.len() ==> ranks_before(es, by, #[trigger] order[p] as int, #[trigger] order[q] as int)
}

proof fn lemma_ranks_transitive(es: Seq<FileEntry>, by: SortBy, i: int, j: int, k: int)
    requires
        0 <= i < es.len(),
        0 <= j < es.len(),
        0 <= k < es.len(),
        ranks_before(es, by, i, j),
        ranks_before(es, by, j, k),
    ensures
        ranks_before(es, by, i, k),
{
    match by {
        SortBy::Name => {
            let (a, b, c) = (es[i].path@, es[j].path@, es[k].path@);
            lemma_seq_less_total(a, b);
            lemma_seq_less_total(b, c);
            lemma_seq_less_total(a, c);
            if seq_less(a, b) && seq_less(b, c) {
                lemma_seq_less_transitive(a, b, c);
            }
            if seq_less(c, a) && seq_less(a, b) {
                lemma_seq_less_transitive(c, a, b);
            }
            if seq_less(b, c) && seq_less(c, a) {
                lemma_seq_less_transitive(b, c, a);
            }
            lemma_seq_less_irreflexive(a);
            lemma_seq_less_irreflexive(b);
            lemma_seq_less_irreflexive(c);
        },
        _ => {},
    }
}

proof fn lemma_ranks_total(es: Seq<FileEntry>, by: SortBy, i: int, j: int)
    requires
        0 <= i < es.len(),
        0 <= j < es.len(),
        i != j,
    ensures
        ranks_before(es, by, i, j) || ranks_before(es, by, j, i),
{
}

/// `a < b` for strings.
pub fn chars_less(a: &Vec<char>, b: &Vec<char>) -> (r: bool)
    ensures
        r == seq_less(a@, b@),
{
    let mut i: usize = 0;
    assert(a@.subrange(0, a.len() as int) =~= a@);
    assert(b@.subrange(0, b.len() as int) =~= b@);
    while i < a.len() && i < b.len() && a[i] == b[i]
        invariant
            i <= a.len(),
            i <= b.len(),
            seq_less(a@, b@) == seq_less(a@.subrange(i as int, a.len() as int), b@.subrange(i as int, b.len() as int)),
        decreases a.len() - i,
    {
        proof {
            let sa = a@.subrange(i as int, a.len() as int);
            let sb = b@.subrange(i as int, b.len() as int);
            assert(sa.drop_first() =~= a@.subrange(i + 1, a.len() as int));
            assert(sb.drop_first() =~= b@.subrange(i + 1, b.len() as int));
        }
        i = i + 1;
    }
    if i == b.len() {
        false
    } else if i == a.len() {
        true
    } else {
        a[i] < b[i]
    }
}

fn entry_less(es: &Vec<FileEntry>, names: &Vec<Vec<char>>, by: SortBy, i: usize, j: usize) -> (r: bool)
    requires
        names.len() == es.len(),
        forall|k: int| 0 <= k < es.len() ==> (#[trigger] names@[k])@ == es@[k].path@,
        i < es.len(),
        j < es.len(),
    ensures
        r == key_less(es@[i as int], es@[j as int], by),
{
    match by {
        SortBy::Name => chars_less(&names[i], &names[j]),
        SortBy::Size => es[i].size < es[j].size,
        SortBy::Modified => es[i].modified < es[j].modified,
    }
}

/// The indices of `es` in the order of a stable sort by `by`
/// (`slice::sort_by` with the key's `cmp`).
pub fn sort_order(es: &Vec<FileEntry>, by: SortBy) -> (order: Vec<usize>)
    ensures
        stable_order(es@, by, order@),
{
    let mut names: Vec<Vec<char>> = Vec::new();
    let mut k: usize = 0;
    while k < es.len()
        invariant
            k <= es.len(),
            names.len() == k,
            forall|m: int| 0 <= m < k ==> (#[trigger] names@[m])@ == es@[m].path@,
        decreases es.len() - k,
    {
        names.push(chars_of(es[k].path.as_str()));
        k = k + 1;
    }
    let mut order: Vec<usize> = Vec::new();
    let mut i: usize = 0;
    while i < es.len()
        invariant
            i <= es.len(),
            names.len() == es.len(),
            forall|m: int| 0 <= m < es.len() ==> (#[trigger] names@[m])@ == es@[m].path@,
            order.len() == i,
            order@.no_duplicates(),
            forall|p: int| 0 <= p < order.len() ==> (#[trigger] order@[p] as int) < i,
            forall|p: int, q: int| 0 <= p < q < order.len() ==> ranks_before(es@, by, #[trigger] order@[p] as int, #[trigger] order@[q] as int),
        decreases es.len() - i,
    {
        let mut pos: usize = 0;
        while pos < order.len() && !(entry_less(es, &names, by, i, order[pos]) || (!entry_less(es, &names, by, order[pos], i) && i < order[pos]))
            invariant
                pos <= order.len(),
                i < es.len(),
                names.len() == es.len(),
                forall|m: int| 0 <= m < es.len() ==> (#[trigger] names@[m])@ == es@[m].path@,
                forall|p: int| 0 <= p < order.len() ==> (#[trigger] order@[p] as int) < i,
                forall|p: int| 0 <= p < pos ==> !ranks_before(es@, by, i as int, #[trigger] order@[p] as int),
            decreases order.len() - pos,
        {
            pos = pos + 1;
        }
        let ghost before = order@;
        order.insert(pos, i);
        proof {
            assert(order@ == before.insert(pos as int, i));
            assert forall|p: int| 0 <= p < order.len() implies (#[trigger] order@[p] as int) < i + 1 by {
                if p < pos {
                    assert(order@[p] == before[p]);
                } else if p > pos {
                    assert(order@[p] == before[p - 1]);
                }
            }
            assert forall|p: int, q: int| 0 <= p < q < order.len() implies ranks_before(es@, by, #[trigger] order@[p] as int, #[trigger] order@[q] as int) by {
                if q < pos {
                    assert(order@[p] == before[p] && order@[q] == before[q]);
                } else if q == pos {
                    assert(order@[p] == before[p]);
                    lemma_ranks_total(es@, by, i as int, before[p] as int);
                } else if p == pos {
                    assert(order@[q] == before[q - 1]);
                    if q - 1 > pos {
                        assert(ranks_before(es@, by, before[pos as int] as int, before[q - 1] as int));
                        lemma_ranks_transitive(es@, by, i as int, before[pos as int] as int, before[q - 1] as int);
                    }
                } else if p < pos {
                    assert(order@[p] == before[p] && order@[q] == before[q - 1]);
                } else {
                    assert(order@[p] == before[p - 1] && order@[q] == before[q - 1]);
                }
            }
            assert forall|p: int, q: int| 0 <= p < q < order.len() implies order@[p] != order@[q] by {
                if p == pos {
                    assert(order@[q] == before[q - 1]);
                } else if q == pos {
                    assert(order@[p] == before[p]);
                } else if p < pos && q < pos {
                    assert(order@[p] == before[p] && order@[q] == before[q]);
                } else if p < pos {
                    assert(order@[p] == before[p] && order@[q] == before[q - 1]);
                } else {
                    assert(order@[p] == before[p - 1] && order@[q] == before[q - 1]);
                }
            }
        }
        i = i + 1;
    }
    order
}

/// One line of the find tool's answer.
pub open spec fn entry_line(e: FileEntry, chroot: Seq<char>) -> Seq<char> {
    relative_to(e.path@, chroot) + " "@ + decimal(e.size as nat) + " "@ + decimal(e.modified as nat) + " "@ + type_label(e.file_type)
}

/// The entries listed by the find tool, in the sort order (reversed when
/// descending) and at most `max` of them.
pub open spec fn listed(es: Seq<FileEntry>, order: Seq<usize>, descending: bool, max: u64) -> Seq<FileEntry> {
    let sorted = order.map_values(|k: usize| es[k as int]);
    let ordered = if descending { sorted.reverse() } else { sorted };
    if max < ordered.len() { ordered.take(max as int) } else { ordered }
}

/// The answer of the find tool for a non-empty `order`ed listing.
pub open spec fn find_answer(es: Seq<FileEntry>, order: Seq<usize>, descending: bool, max: u64, chroot: Seq<char>) -> Seq<char> {
    "Path Size Modified Type\n"@ + join_with(listed(es, order, descending, max).map_values(|e: FileEntry| entry_line(e, chroot)), "\n"@)
}

impl Find {
    pub fn name(&self) -> (r: String)
        ensures
            r@ == "file_find"@,
    {
        "file_find".to_owned()
    }

    pub fn description(&self) -> (r: String)
        ensures
            r@ == "Finds files and directories in a directory hierarchy."@,
    {
        "Finds files and directories in a directory hierarchy.".to_owned()
    }

    pub fn schema(&self) -> (s: Schema)
        ensures
            find_schema(s),
    {
        let mut schema = Schema::new("file_find", "");
        schema.add_property(
            "path",
            true,
            SchemaField::new(SchemaFieldType::String, "Absolute path within the current chroot to directory to find in.", None),
        );
        schema.add_property(
            "pattern",
            false,
            SchemaField::new(SchemaFieldType::String, "Optional, only list directories and files with a name matching provided regex.", None),
        );
        schema.add_property(
            "file_type",
            false,
            SchemaField::new(SchemaFieldType::String, "Optional, only list files or directories, defaults to both.", Some(strings2("file", "directory"))),
        );
        schema.add_property(
            "sort_by",
            false,
            SchemaField::new(SchemaFieldType::String, "Sort findings by, defaults to name.", Some(strings3("name", "size", "modified"))),
        );
        schema.add_property(
            "descending",
            false,
            SchemaField::new(SchemaFieldType::Boolean, "Sort in descending order, defaults to false.", None),
        );
        schema.add_property(
            "recursive",
            false,
            SchemaField::new(SchemaFieldType::Boolean, "Recursively find files and directories, defaults to true.", None),
        );
        schema.add_property(
            "max_results",
            false,
            SchemaField::new(SchemaFieldType::Integer, "Maximum number of results to return, defaults to 1000.", None),
        );
        schema.add_property("exclude", false, exclude_field());
        schema
    }

    /// Compiles the optional name pattern of the find.
    pub fn compile_pattern(args: &FindArguments) -> (r: Result<Option<Pattern>, AppError>)
        ensures
            match args.pattern {
                None => r matches Ok(None),
                Some(p) => match regex_compile(p@) {
                    Ok(_) => r matches Ok(Some(q)) && q.source() == p@,
                    Err(m) => r matches Err(e) && e.is(ErrorKind::Validation, "tool_failed"@, "Invalid regex pattern '"@ + p@ + "': "@ + m),
                },
            },
    {
        match &args.pattern {
            None => Ok(None),
            Some(p) => match compile(p.as_str()) {
                Ok(q) => Ok(Some(q)),
                Err(m) => {
                    let head = concat3("Invalid regex pattern '", p.as_str(), "': ");
                    Err(AppError::new(ErrorKind::Validation, "tool_failed", concat2(head.as_str(), m.as_str())))
                },
            },
        }
    }

    /// Whether a walked entry of kind `kind` named `name` is listed: it has
    /// the requested type and its name matches the pattern; an unsupported
    /// type filter is an error.
    pub fn accept_entry(file_type: Option<FileType>, pattern: Option<&Pattern>, kind: EntryKind, name: &str) -> (r: Result<bool, AppError>)
        ensures
            match file_type {
                Some(t) => match type_filter(t, kind) {
                    None => r matches Err(e) && e.is(ErrorKind::Validation, "tool_failed"@, "Unsupported file type filter: "@ + type_label(t)),
                    Some(false) => r == Ok::<bool, AppError>(false),
                    Some(true) => r matches Ok(b) && b == (match pattern { Some(p) => regex_is_match(p.source(), name@), None => true }),
                },
                None => r matches Ok(b) && b == (match pattern { Some(p) => regex_is_match(p.source(), name@), None => true }),
            },
    {
        if let Some(t) = file_type {
            let pass = match t {
                FileType::File => kind.is_file,
                FileType::Directory => kind.is_dir,
                FileType::Symlink => kind.is_symlink,
                FileType::Device => kind.is_block_device || kind.is_char_device,
                FileType::Fifo => kind.is_fifo,
                FileType::Socket => kind.is_socket,
                FileType::Unknown => {
                    let t_name = file_type_name(t);
                    return Err(AppError::new(ErrorKind::Validation, "tool_failed", concat2("Unsupported file type filter: ", t_name.as_str())));
                },
            };
            if !pass {
                return Ok(false);
            }
        }
        match pattern {
            Some(p) => Ok(is_match(p, name)),
            None => Ok(true),
        }
    }

    /// The listing of an entry at `path` of kind `kind`, `size` bytes, last
    /// modified `modified` seconds ago.
    pub fn entry_to_file_entry(path: &str, kind: EntryKind, size: u64, modified: u64) -> (r: Result<FileEntry, AppError>)
        ensures
            match classify(kind) {
                Some(t) => r matches Ok(e) && e.path@ == path@ && e.size == size && e.modified == modified && e.file_type == t,
                None => r matches Err(e) && e.is(ErrorKind::Validation, "tool_failed"@, "Unsupported file type for entry '"@ + path@ + "'"@),
            },
    {
        let file_type = if kind.is_file {
            FileType::File
        } else if kind.is_dir {
            FileType::Directory
        } else if kind.is_symlink {
            FileType::Symlink
        } else if kind.is_block_device || kind.is_char_device {
            FileType::Device
        } else if kind.is_fifo {
            FileType::Fifo
        } else if kind.is_socket {
            FileType::Socket
        } else {
            return Err(AppError::new(ErrorKind::Validation, "tool_failed", concat3("Unsupported file type for entry '", path, "'")));
        };
        Ok(FileEntry { path: owned(path), size, modified, file_type })
    }

    /// The answer of the find tool for the found `entries`: sorted stably by
    /// `sort_by`, reversed when `descending`, at most `max_results` of them,
    /// paths shown relative to `chroot`.
    pub fn list_entries(entries: &Vec<FileEntry>, sort_by: SortBy, descending: bool, max_results: u64, chroot: &str) -> (r: String)
        ensures
            entries@.len() == 0 ==> r@ == "No files or directories found."@,
            entries@.len() > 0 ==> exists|order: Seq<usize>| stable_order(entries@, sort_by, order) && r@ == find_answer(entries@, order, descending, max_results, chroot@),
    {
        if entries.len() == 0 {
            return "No files or directories found.".to_owned();
        }
        let order = sort_order(entries, sort_by);
        let n = order.len();
        let ghost sorted = order@.map_values(|k: usize| entries@[k as int]);
        let ghost ordered = if descending { sorted.reverse() } else { sorted };
        let count: usize = if (max_results as u128) < (n as u128) { max_results as usize } else { n };
        let ghost shown = listed(entries@, order@, descending, max_results);
        assert(shown =~= ordered.take(count as int));
        let mut out: Vec<String> = Vec::new();
        let mut p: usize = 0;
        while p < count
            invariant
                count <= n == order.len() == entries.len(),
                stable_order(entries@, sort_by, order@),
                sorted == order@.map_values(|k: usize| entries@[k as int]),
                ordered == (if descending { sorted.reverse() } else { sorted }),
                shown == ordered.take(count as int),
                p <= count,
                views(out@) == shown.take(p as int).map_values(|e: FileEntry| entry_line(e, chroot@)),
            decreases count - p,
        {
            let idx = if descending { order[n - 1 - p] } else { order[p] };
            let e = &entries[idx];
            proof {
                assert((order@[p as int] as int) < entries.len() as int);
                assert((order@[n - 1 - p] as int) < entries.len() as int);
                assert(shown[p as int] == entries@[idx as int]);
            }
            let shown_path = relative_display(e.path.as_str(), chroot);
            let size = decimal_string(e.size);
            let modified = decimal_string(e.modified);
            let t_name = file_type_name(e.file_type);
            let mut line = concat3(shown_path.as_str(), " ", size.as_str());
            line.append(" ");
            line.append(modified.as_str());
            line.append(" ");
            line.append(t_name.as_str());
            let ghost prev = views(out@);
            out.push(line);
            proof {
                assert(views(out@) =~= prev.push(line@));
                assert(shown.take(p + 1).map_values(|e: FileEntry| entry_line(e, chroot@)) =~= shown.take(p as int).map_values(|e: FileEntry| entry_line(e, chroot@)).push(line@));
            }
            p = p + 1;
        }
        assert(shown.take(count as int) =~= shown);
        let body = join(&out, "\n");
        concat2("Path Size Modified Type\n", body.as_str())
    }
}


/// The type column names each entry's own kind: distinct file types get
/// distinct labels, and each label is the name of its kind (the `Debug`
/// name of the variant), so a directory is listed as `Directory`.
pub proof fn type_label_law(a: FileType, b: FileType)
    ensures
        a != b ==> type_label(a) != type_label(b),
        type_label(FileType::File) == "File"@,
        type_label(FileType::Directory) == "Directory"@,
        type_label(FileType::Symlink) == "Symlink"@,
        type_label(FileType::Device) == "Device"@,
        type_label(FileType::Fifo) == "Fifo"@,
        type_label(FileType::Socket) == "Socket"@,
        type_label(FileType::Unknown) == "Unknown"@,
{
    reveal_strlit("File");
    reveal_strlit("Directory");
    reveal_strlit("Symlink");
    reveal_strlit("Device");
    reveal_strlit("Fifo");
    reveal_strlit("Socket");
    reveal_strlit("Unknown");
    if a != b && type_label(a) == type_label(b) {
        let la = type_label(a);
        let lb = type_label(b);
        assert(la.len() == lb.len());
        assert(la.len() >= 4);
        assert(la[0] == lb[0]);
        assert(la[2] == lb[2]);
    }
}

} // verus!
