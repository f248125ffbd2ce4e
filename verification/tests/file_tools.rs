use adapters::error::ErrorKind;
use adapters::tools::file::delete::deleted_message;
use adapters::tools::file::find::{EntryKind, FileEntry, FileType, Find, SortBy};
use adapters::tools::file::mkdir::{Mkdir, MkdirArguments};
use adapters::tools::file::permissions::{check_path, check_scope};
use adapters::tools::file::read::{read_file, read_lines, Read};
use adapters::tools::file::search::{is_excluded, truncate_line, MatchEntry, Search, SearchArguments};
use adapters::tools::file::write::{replace_lines_in_file, write_file, Write};
use adapters::tools::models::ToolPermission;

fn scopes(list: &[&str]) -> ToolPermission {
    ToolPermission { scopes: list.iter().map(|s| s.to_string()).collect() }
}

#[test]
fn read_whole_file_returns_content() {
    let content = "alpha\nbeta\r\ngamma\n";
    assert_eq!(read_lines(content, None, None), content);
}

#[test]
fn read_selected_lines() {
    let content = "one\ntwo\nthree\nfour";
    assert_eq!(read_lines(content, Some(2), Some(3)), "two\nthree");
    assert_eq!(read_lines(content, Some(3), None), "three\nfour");
    assert_eq!(read_lines(content, None, Some(1)), "one");
    assert_eq!(read_lines(content, Some(9), None), "");
    assert_eq!(read_lines("a\r\nb\r\n", Some(1), None), "a\nb");
}

#[test]
fn read_refuses_non_files() {
    let e = read_file("/dir", false, "", None, None).unwrap_err();
    assert_eq!(e.kind, ErrorKind::Validation);
    assert_eq!(e.code, "tool_failed");
    assert_eq!(e.message, "Path '/dir' is not a file");
    assert_eq!(read_file("/f", true, "x\ny", Some(2), None).unwrap(), "y");
}

#[test]
fn overwrite_then_read_gives_content() {
    let written = write_file("/f", false, "old\ntext", None, None, false, "new").unwrap();
    assert_eq!(written, "new");
    assert_eq!(read_lines(&written, None, None), "new");
}

#[test]
fn append_then_read_gives_both() {
    let written = write_file("/f", false, "old\n", None, None, true, "more").unwrap();
    assert_eq!(read_lines(&written, None, None), "old\nmore");
}

#[test]
fn replace_lines_in_the_middle() {
    assert_eq!(replace_lines_in_file("a\nb\nc\nd", 2, Some(2), "X\nY\nZ"), "a\nX\nY\nZ\nd");
    assert_eq!(replace_lines_in_file("a\nb", 3, Some(1), "c"), "a\nb\nc");
    assert_eq!(replace_lines_in_file("a\nb\nc", 2, None, "X"), "a\nX");
    assert_eq!(replace_lines_in_file("a\nb", 7, Some(2), "c"), "a\nb\nc");
    assert_eq!(replace_lines_in_file("", 1, Some(1), "c"), "c");
    assert_eq!(replace_lines_in_file("a\nb", 1, Some(0), "z"), "z\na\nb");
    assert_eq!(write_file("/f", false, "a\nb\nc", Some(1), Some(1), false, "z").unwrap(), "z\nb\nc");
}

#[test]
fn write_refuses_directories_and_line_zero() {
    let e = write_file("/d", true, "", None, None, false, "x").unwrap_err();
    assert_eq!(e.kind, ErrorKind::Validation);
    assert_eq!(e.message, "Path '/d' is a directory can not write to it");
    let e = write_file("/f", false, "a", Some(0), Some(1), false, "x").unwrap_err();
    assert_eq!(e.message, "Start line number must be greater than 0");
}

#[test]
fn path_checks_in_order() {
    let p = scopes(&["/work"]);
    let e = check_path(&p, "/work/../etc").unwrap_err();
    assert_eq!(e.kind, ErrorKind::Validation);
    assert_eq!(e.message, "Path must not contain '..': '/work/../etc'");
    let e = check_path(&p, "work/a").unwrap_err();
    assert_eq!(e.message, "Path must be absolute: 'work/a'");
    let e = check_path(&p, "/other/a").unwrap_err();
    assert_eq!(e.kind, ErrorKind::Unauthorized);
    assert_eq!(e.message, "Path '/other/a' is not within allowed scopes: [\"/work\"]");
    assert!(check_path(&p, "/work/a").is_ok());
    assert!(check_path(&scopes(&[]), "/anything").is_ok());
}

#[test]
fn scope_is_a_string_prefix() {
    let p = scopes(&["/a", "/b/c"]);
    assert!(check_scope(&p, "/b/c/d"));
    assert!(check_scope(&p, "/ab"));
    assert!(!check_scope(&p, "/b"));
}

#[test]
fn delete_messages() {
    assert_eq!(deleted_message("/x", true), "Deleted directory '/x'");
    assert_eq!(deleted_message("/x", false), "Deleted file '/x'");
}

#[test]
fn mkdir_target_and_message() {
    let args = MkdirArguments { path: "//new/dir".to_string() };
    assert_eq!(Mkdir::target(&scopes(&[]), "/root", &args).unwrap(), "/root/new/dir");
    let e = Mkdir::target(&scopes(&["/elsewhere"]), "/root", &args).unwrap_err();
    assert_eq!(e.kind, ErrorKind::Unauthorized);
    let e = Mkdir::target(&scopes(&[]), "/root", &MkdirArguments { path: "/a/../../outside".to_string() }).unwrap_err();
    assert_eq!(e.kind, ErrorKind::Validation);
    assert_eq!(e.message, "Path must not contain '..': '/a/../../outside'");
    let e = Mkdir::target(&scopes(&[]), "/root", &MkdirArguments { path: "rel/dir".to_string() }).unwrap_err();
    assert_eq!(e.message, "Path must be absolute: 'rel/dir'");
    assert_eq!(Mkdir::created_message("/chroot/sub", "/chroot"), "Created directory '/sub'");
    assert_eq!(Mkdir::created_message("/other", "/chroot"), "Created directory '/'");
}

#[test]
fn tool_names_and_schemas() {
    assert_eq!(Read.name(), "file_read");
    assert_eq!(Write.name(), "file_write");
    assert_eq!(Search.name(), "file_search");
    assert_eq!(Find.name(), "file_find");
    assert_eq!(Mkdir.name(), "file_mkdir");
    let s = Read.schema();
    assert_eq!(s.name, "file_read");
    assert_eq!(s.properties.len(), 3);
    assert_eq!(s.properties[0].name, "path");
    assert!(s.properties[0].required);
}

#[test]
fn search_collects_matches_up_to_the_limit() {
    let mut args = SearchArguments::default();
    args.pattern = "b+".to_string();
    let re = Search::compile_pattern(&args).unwrap();
    let mut matches: Vec<MatchEntry> = Vec::new();
    let done = Search::search_file("/r/f.txt", "abc\nxyz\nbb\nb", &re, 2, &mut matches);
    assert!(done);
    assert_eq!(matches.len(), 2);
    assert_eq!(matches[0].line_number, 1);
    assert_eq!(matches[1].line, "bb");
    assert_eq!(
        Search::format_matches(&matches, "/r"),
        "Path:Line Match\n/f.txt:1 abc\n/f.txt:3 bb"
    );
    assert_eq!(Search::format_matches(&Vec::new(), "/r"), "No matching file content found.");
    let mut none: Vec<MatchEntry> = Vec::new();
    assert!(Search::search_file("/r/f.txt", "bb", &re, 0, &mut none));
    assert!(none.is_empty());
}

#[test]
fn search_rejects_bad_patterns() {
    let mut args = SearchArguments::default();
    args.pattern = "(".to_string();
    let e = Search::compile_pattern(&args).err().unwrap();
    assert_eq!(e.kind, ErrorKind::Validation);
    assert!(e.message.starts_with("Invalid regex pattern '(': "));
    let mut args = SearchArguments::default();
    args.pattern = "  ".to_string();
    let e = Search::check_pattern(&args).unwrap_err();
    assert_eq!(e.message, "Argument 'pattern' must not be empty.");
}

#[test]
fn search_line_truncation_and_exclusion() {
    let long: String = std::iter::repeat('x').take(150).collect();
    let shown = truncate_line(&long);
    assert_eq!(shown.chars().count(), 115);
    assert!(shown.ends_with("... [truncated]"));
    assert_eq!(truncate_line("short"), "short");
    assert!(is_excluded(".git", &vec![".git".to_string()]));
    assert!(!is_excluded("src", &vec![".git".to_string()]));
}

fn entry(path: &str, size: u64, modified: u64) -> FileEntry {
    FileEntry { path: path.to_string(), size, modified, file_type: FileType::File }
}

#[test]
fn find_lists_sorted_and_limited() {
    let es = vec![entry("/r/b", 5, 1), entry("/r/a", 7, 2), entry("/r/c", 5, 3)];
    assert_eq!(
        Find::list_entries(&es, SortBy::Name, false, 10, "/r"),
        "Path Size Modified Type\n/a 7 2 File\n/b 5 1 File\n/c 5 3 File"
    );
    assert_eq!(
        Find::list_entries(&es, SortBy::Size, false, 2, "/r"),
        "Path Size Modified Type\n/b 5 1 File\n/c 5 3 File"
    );
    assert_eq!(
        Find::list_entries(&es, SortBy::Modified, true, 1, "/r"),
        "Path Size Modified Type\n/c 5 3 File"
    );
    assert_eq!(Find::list_entries(&Vec::new(), SortBy::Name, false, 10, "/r"), "No files or directories found.");
}

#[test]
fn find_classifies_entries() {
    let kind = EntryKind {
        is_file: false,
        is_dir: true,
        is_symlink: false,
        is_block_device: false,
        is_char_device: false,
        is_fifo: false,
        is_socket: false,
    };
    let e = Find::entry_to_file_entry("/r/d", kind, 0, 0).unwrap();
    assert_eq!(e.file_type, FileType::Directory);
    assert_eq!(Find::accept_entry(Some(FileType::File), None, kind, "d").unwrap(), false);
    assert_eq!(Find::accept_entry(Some(FileType::Directory), None, kind, "d").unwrap(), true);
}
