use vstd::prelude::*;

use crate::error::{AppError, ErrorKind};
use crate::paths::{relative_display, relative_to};
use crate::pattern::{compile, is_match, regex_compile, regex_is_match, Pattern};
use crate::schema::{plain_field, property_named, Schema, SchemaField, SchemaFieldType};
use crate::text::{blank, char_count, concat2, concat3, decimal, decimal_string, is_blank, join, join_with, lines, lines_of, str_eq, take_chars, views};

verus! {

/// The tool that searches file contents for a regular expression.
pub struct Search;

/// The arguments of the search tool.
pub struct SearchArguments {
    pub path: String,
    pub pattern: String,
    pub recursive: bool,
    pub max_results: u64,
    pub exclude: Vec<String>,
}

impl SearchArguments {
    /// The arguments that the search tool assumes where none are given.
    pub fn default() -> (a: SearchArguments)
        ensures
            a.path@ == "/"@,
            a.pattern@ == ""@,
            a.recursive,
            a.max_results == 1000,
            views(a.exclude@) == seq![".git"@],
    {
        let mut exclude = Vec::new();
        exclude.push(".git".to_owned());
        assert(views(exclude@) =~= seq![".git"@]);
        SearchArguments { path: "/".to_owned(), pattern: "".to_owned(), recursive: true, max_results: 1000, exclude }
    }
}

/// One matching line: the file, the line's number (1-based) and the line,
/// shortened to 100 characters.
pub struct MatchEntry {
    pub path: String,
    pub line_number: usize,
    pub line: String,
}

/// The description of the `exclude` parameter of the find and search tools.
pub open spec fn exclude_description() -> Seq<char> {
    "Names of files or directories to exclude from the search (matched against each path segment's basename); matching directories are not descended into. Defaults to ['.git']. Pass an empty array to include everything."@
}

/// The parameters of the search tool.
pub open spec fn search_schema(s: Schema) -> bool {
    &&& s.name@ == "file_search"@
    &&& s.description@ == ""@
    &&& s.properties@.len() == 5
    &&& property_named(s.properties@[0], "path"@, true)
    &&& plain_field(s.properties@[0].field, SchemaFieldType::String, "Absolute path within the current chroot to directory to search in."@)
    &&& property_named(s.properties@[1], "pattern"@, true)
    &&& plain_field(s.properties@[1].field, SchemaFieldType::String, "Regex pattern to search for in file contents."@)
    &&& property_named(s.properties@[2], "recursive"@, false)
    &&& plain_field(s.properties@[2].field, SchemaFieldType::Boolean, "Recursively search files and directories, defaults to true."@)
    &&& property_named(s.properties@[3], "max_results"@, false)
    &&& plain_field(s.properties@[3].field, SchemaFieldType::Integer, "Maximum number of matching lines to return, defaults to 1000."@)
    &&& property_named(s.properties@[4], "exclude"@, false)
    &&& s.properties@[4].field.field_type == SchemaFieldType::Array
    &&& s.properties@[4].field.description@ == exclude_description()
    &&& s.properties@[4].field.enum_values is None
    &&& s.properties@[4].field.items matches Some(it) && it.field_type == SchemaFieldType::String && it.description@ == "Name to exclude."@
}

/// The `exclude` parameter shared by the find and search tools.
pub fn exclude_field() -> (f: SchemaField)
    ensures
        f.field_type == SchemaFieldType::Array,
        f.description@ == exclude_description(),
        f.enum_values is None,
        f.items matches Some(it) && it.field_type == SchemaFieldType::String && it.description@ == "Name to exclude."@,
{
    let mut exclude = SchemaField::new(
        SchemaFieldType::Array,
        "Names of files or directories to exclude from the search (matched against each path segment's basename); matching directories are not descended into. Defaults to ['.git']. Pass an empty array to include everything.",
        None,
    );
    exclude.set_items(SchemaField::new(SchemaFieldType::String, "Name to exclude.", None));
    exclude
}

/// Whether a directory entry named `name` is left out of a walk.
pub fn is_excluded(name: &str, exclude: &Vec<String>) -> (r: bool)
    ensures
        r == views(exclude@).contains(name@),
{
    let mut i: usize = 0;
    while i < exclude.len()
        invariant
            i <= exclude.len(),
            forall|j: int| 0 <= j < i ==> views(exclude@)[j] != name@,
        decreases exclude.len() - i,
    {
        if str_eq(exclude[i].as_str(), name) {
            assert(views(exclude@)[i as int] == name@);
            return true;
        }
        i = i + 1;
    }
    assert(!views(exclude@).contains(name@));
    false
}

/// A line as the search tool shows it: at most 100 characters, marked when
/// cut.
pub open spec fn shown_line(line: Seq<char>) -> Seq<char> {
    if line.len() > 100 {
        line.take(100) + "... [truncated]"@
    } else {
        line
    }
}

/// `line` cut to 100 characters, marked when cut.
pub fn truncate_line(line: &str) -> (r: String)
    ensures
        r@ == shown_line(line@),
{
    let mut t = take_chars(line, 100);
    if char_count(line) > 100 {
        t.append("... [truncated]");
    }
    t
}

/// The matches in `ls` of the regex compiled from `src`: each matching
/// line's number (1-based) and its shown form, in order.
pub open spec fn file_matches(src: Seq<char>, ls: Seq<Seq<char>>) -> Seq<(int, Seq<char>)>
    decreases ls.len(),
{
    if ls.len() == 0 {
        Seq::empty()
    } else {
        let prev = file_matches(src, ls.drop_last());
        if regex_is_match(src, ls.last()) {
            prev.push((ls.len() as int, shown_line(ls.last())))
        } else {
            prev
        }
    }
}

proof fn lemma_file_matches_prefix(src: Seq<char>, ls: Seq<Seq<char>>, j: int)
    requires
        0 <= j <= ls.len(),
    ensures
        file_matches(src, ls.take(j)).len() <= file_matches(src, ls).len(),
        file_matches(src, ls).take(file_matches(src, ls.take(j)).len() as int) == file_matches(src, ls.take(j)),
    decreases ls.len(),
{
    if j == ls.len() {
        assert(ls.take(j) =~= ls);
    } else {
        lemma_file_matches_prefix(src, ls.drop_last(), j);
        assert(ls.drop_last().take(j) =~= ls.take(j));
        let p = file_matches(src, ls.drop_last());
        let k = file_matches(src, ls.take(j)).len() as int;
        if regex_is_match(src, ls.last()) {
            assert(file_matches(src, ls).take(k) =~= p.take(k));
        }
    }
}

/// How many matches a file adds to `have` earlier ones when `m` lines match
/// and the search never holds more than `max` matches.
pub open spec fn taken(have: int, m: int, max: int) -> int {
    if have >= max {
        0
    } else if have + m >= max {
        max - have
    } else {
        m
    }
}

/// A match entry seen as its path, line number and line.
pub open spec fn entry_view(e: MatchEntry) -> (Seq<char>, int, Seq<char>) {
    (e.path@, e.line_number as int, e.line@)
}

/// The matches as entries for the file `path`.
pub open spec fn as_entries(path: Seq<char>, ms: Seq<(int, Seq<char>)>) -> Seq<(Seq<char>, int, Seq<char>)> {
    ms.map_values(|m: (int, Seq<char>)| (path, m.0, m.1))
}

impl Search {
    pub fn name(&self) -> (r: String)
        ensures
            r@ == "file_search"@,
    {
        "file_search".to_owned()
    }

    pub fn description(&self) -> (r: String)
        ensures
            r@ == "Recursively searches files (max 10MB) for content matching a regex pattern."@,
    {
        "Recursively searches files (max 10MB) for content matching a regex pattern.".to_owned()
    }

    pub fn schema(&self) -> (s: Schema)
        ensures
            search_schema(s),
    {
        let mut schema = Schema::new("file_search", "");
        schema.add_property(
            "path",
            true,
            SchemaField::new(SchemaFieldType::String, "Absolute path within the current chroot to directory to search in.", None),
        );
        schema.add_property(
            "pattern",
            true,
            SchemaField::new(SchemaFieldType::String, "Regex pattern to search for in file contents.", None),
        );
        schema.add_property(
            "recursive",
            false,
            SchemaField::new(SchemaFieldType::Boolean, "Recursively search files and directories, defaults to true.", None),
        );
        schema.add_property(
            "max_results",
            false,
            SchemaField::new(SchemaFieldType::Integer, "Maximum number of matching lines to return, defaults to 1000.", None),
        );
        schema.add_property("exclude", false, exclude_field());
        schema
    }

    /// Refuses an empty (or all white space) pattern.
    pub fn check_pattern(args: &SearchArguments) -> (r: Result<(), AppError>)
        ensures
            blank(args.pattern@) ==> (r matches Err(e) && e.is(ErrorKind::Validation, "tool_failed"@, "Argument 'pattern' must not be empty."@)),
            !blank(args.pattern@) ==> r is Ok,
    {
        if is_blank(args.pattern.as_str()) {
            return Err(AppError::new(ErrorKind::Validation, "tool_failed", "Argument 'pattern' must not be empty.".to_owned()));
        }
        Ok(())
    }

    /// Compiles the pattern of the search.
    pub fn compile_pattern(args: &SearchArguments) -> (r: Result<Pattern, AppError>)
        ensures
            match regex_compile(args.pattern@) {
                Ok(_) => r matches Ok(p) && p.source() == args.pattern@,
                Err(m) => r matches Err(e) && e.is(ErrorKind::Validation, "tool_failed"@, "Invalid regex pattern '"@ + args.pattern@ + "': "@ + m),
            },
    {
        match compile(args.pattern.as_str()) {
            Ok(p) => Ok(p),
            Err(m) => {
                let head = concat3("Invalid regex pattern '", args.pattern.as_str(), "': ");
                Err(AppError::new(ErrorKind::Validation, "tool_failed", concat2(head.as_str(), m.as_str())))
            },
        }
    }

    /// Adds the matching lines of the file `path` holding `content` to
    /// `matches`, stopping once there are `max_results` of them (never more);
    /// answers whether the search is complete.
    pub fn search_file(path: &str, content: &str, pattern: &Pattern, max_results: u64, matches: &mut Vec<MatchEntry>) -> (done: bool)
        ensures
            ({
                let fm = file_matches(pattern.source(), lines_of(content@));
                let k = taken(old(matches)@.len() as int, fm.len() as int, max_results as int);
                &&& final(matches)@.map_values(|e: MatchEntry| entry_view(e)) == old(matches)@.map_values(|e: MatchEntry| entry_view(e)) + as_entries(path@, fm.take(k))
                &&& done == (old(matches)@.len() + k >= max_results)
            }),
            old(matches)@.len() <= max_results ==> final(matches)@.len() <= max_results,
    {
        let ls = lines(content);
        let ghost src = pattern.source();
        let ghost all = lines_of(content@);
        let ghost fm = file_matches(src, all);
        let ghost have = matches@.len() as int;
        let ghost start_views = matches@.map_values(|e: MatchEntry| entry_view(e));
        let mut i: usize = 0;
        assert(all.take(0) =~= Seq::<Seq<char>>::empty());
        if (matches.len() as u128) >= (max_results as u128) {
            proof {
                assert(fm.take(0) =~= Seq::<(int, Seq<char>)>::empty());
                assert(as_entries(path@, fm.take(0)) =~= Seq::<(Seq<char>, int, Seq<char>)>::empty());
                assert(matches@.map_values(|e: MatchEntry| entry_view(e)) =~= start_views + as_entries(path@, fm.take(0)));
            }
            return true;
        }
        while i < ls.len()
            invariant
                views(ls@) == all,
                all == lines_of(content@),
                fm == file_matches(src, all),
                src == pattern.source(),
                i <= ls.len(),
                have <= matches@.len(),
                have == old(matches)@.len(),
                start_views == old(matches)@.map_values(|e: MatchEntry| entry_view(e)),
                matches@.map_values(|e: MatchEntry| entry_view(e)) == start_views + as_entries(path@, file_matches(src, all.take(i as int))),
                have + file_matches(src, all.take(i as int)).len() < max_results,
                matches@.len() == have + file_matches(src, all.take(i as int)).len(),
            decreases ls.len() - i,
        {
            let ghost before = file_matches(src, all.take(i as int));
            proof {
                assert(all.take(i + 1).drop_last() =~= all.take(i as int));
                assert(all.take(i + 1).last() == all[i as int]);
            }
            if is_match(pattern, ls[i].as_str()) {
                let entry = MatchEntry { path: path.to_owned(), line_number: i + 1, line: truncate_line(ls[i].as_str()) };
                let ghost prev_views = matches@.map_values(|e: MatchEntry| entry_view(e));
                matches.push(entry);
                proof {
                    let now = file_matches(src, all.take(i + 1));
                    assert(now == before.push(((i + 1) as int, shown_line(all[i as int]))));
                    assert(matches@.map_values(|e: MatchEntry| entry_view(e)) =~= prev_views.push(entry_view(entry)));
                    assert(as_entries(path@, now) =~= as_entries(path@, before).push(entry_view(entry)));
                }
                if (matches.len() as u128) >= (max_results as u128) {
                    proof {
                        let now = file_matches(src, all.take(i + 1));
                        lemma_file_matches_prefix(src, all, i + 1);
                        assert(now.len() == taken(have, fm.len() as int, max_results as int));
                        assert(fm.take(now.len() as int) == now);
                        assert(matches@.map_values(|e: MatchEntry| entry_view(e)) == start_views + as_entries(path@, now));
                    }
                    return true;
                }
            }
            i = i + 1;
        }
        proof {
            assert(all.take(ls.len() as int) =~= all);
            assert(fm.take(fm.len() as int) =~= fm);
        }
        false
    }

    /// The answer of the search tool for the collected `matches`, paths shown
    /// relative to `chroot`.
    pub fn format_matches(matches: &Vec<MatchEntry>, chroot: &str) -> (r: String)
        ensures
            matches@.len() == 0 ==> r@ == "No matching file content found."@,
            matches@.len() > 0 ==> r@ == "Path:Line Match\n"@ + join_with(
                matches@.map_values(|e: MatchEntry| match_line(e.path@, e.line_number as int, e.line@, chroot@)),
                "\n"@,
            ),
    {
        if matches.len() == 0 {
            return "No matching file content found.".to_owned();
        }
        let mut out: Vec<String> = Vec::new();
        let mut i: usize = 0;
        while i < matches.len()
            invariant
                i <= matches.len(),
                views(out@) == matches@.take(i as int).map_values(|e: MatchEntry| match_line(e.path@, e.line_number as int, e.line@, chroot@)),
            decreases matches.len() - i,
        {
            let m = &matches[i];
            let shown = relative_display(m.path.as_str(), chroot);
            let number = decimal_string(m.line_number as u64);
            let mut line = concat3(shown.as_str(), ":", number.as_str());
            line.append(" ");
            line.append(m.line.as_str());
            let ghost prev = views(out@);
            out.push(line);
            proof {
                assert(views(out@) =~= prev.push(line@));
                assert(matches@.take(i + 1).map_values(|e: MatchEntry| match_line(e.path@, e.line_number as int, e.line@, chroot@))
                    =~= matches@.take(i as int).map_values(|e: MatchEntry| match_line(e.path@, e.line_number as int, e.line@, chroot@)).push(line@));
            }
            i = i + 1;
        }
        assert(matches@.take(matches.len() as int) =~= matches@);
        let body = join(&out, "\n");
        concat2("Path:Line Match\n", body.as_str())
    }
}

/// One line of the search tool's answer.
pub open spec fn match_line(path: Seq<char>, line_number: int, line: Seq<char>, chroot: Seq<char>) -> Seq<char> {
    relative_to(path, chroot) + ":"@ + decimal(line_number as nat) + " "@ + line
}


/// A line is reported exactly when the regex matches the whole line, however
/// the line is shortened for display: every reported entry names a line of
/// the file (1-based) that matches and shows that line's shown form, and
/// each line that matches has an entry with its number.
pub proof fn search_match_law(src: Seq<char>, ls: Seq<Seq<char>>)
    ensures
        forall|j: int| 0 <= j < file_matches(src, ls).len() ==> {
            let m = #[trigger] file_matches(src, ls)[j];
            &&& 1 <= m.0 <= ls.len()
            &&& regex_is_match(src, ls[m.0 - 1])
            &&& m.1 == shown_line(ls[m.0 - 1])
        },
        forall|i: int| 0 <= i < ls.len() ==> (regex_is_match(src, #[trigger] ls[i]) <==> exists|j: int| 0 <= j < file_matches(src, ls).len() && #[trigger] file_matches(src, ls)[j].0 == i + 1),
    decreases ls.len(),
{
    if ls.len() > 0 {
        let p = ls.drop_last();
        search_match_law(src, p);
        let prev = file_matches(src, p);
        let fm = file_matches(src, ls);
        let n = ls.len() as int;
        assert forall|j: int| 0 <= j < fm.len() implies {
            let m = #[trigger] fm[j];
            &&& 1 <= m.0 <= ls.len()
            &&& regex_is_match(src, ls[m.0 - 1])
            &&& m.1 == shown_line(ls[m.0 - 1])
        } by {
            if j < prev.len() {
                assert(fm[j] == prev[j]);
                assert(ls[prev[j].0 - 1] == p[prev[j].0 - 1]);
            }
        }
        assert forall|i: int| 0 <= i < ls.len() implies (regex_is_match(src, #[trigger] ls[i]) <==> exists|j: int| 0 <= j < fm.len() && #[trigger] fm[j].0 == i + 1) by {
            if i < n - 1 {
                assert(ls[i] == p[i]);
                if regex_is_match(src, ls[i]) {
                    assert(regex_is_match(src, p[i]));
                    let j = choose|j: int| 0 <= j < prev.len() && #[trigger] prev[j].0 == i + 1;
                    assert(fm[j] == prev[j]);
                }
                if exists|j: int| 0 <= j < fm.len() && #[trigger] fm[j].0 == i + 1 {
                    let j = choose|j: int| 0 <= j < fm.len() && #[trigger] fm[j].0 == i + 1;
                    if j < prev.len() {
                        assert(fm[j] == prev[j]);
                    }
                }
            } else {
                assert(ls[i] == ls.last());
                if regex_is_match(src, ls[i]) {
                    assert(fm[prev.len() as int].0 == i + 1);
                }
                if exists|j: int| 0 <= j < fm.len() && #[trigger] fm[j].0 == i + 1 {
                    let j = choose|j: int| 0 <= j < fm.len() && #[trigger] fm[j].0 == i + 1;
                    if j < prev.len() {
                        assert(fm[j] == prev[j]);
                        assert(prev[j].0 <= p.len());
                    }
                }
            }
        }
    }
}

} // verus!
