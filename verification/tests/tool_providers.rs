use adapters::error::{AppError, ErrorKind};
use adapters::js::{FetchScope, Scopes};
use adapters::mcp::McpServer;
use adapters::schema::{Schema, SchemaField, SchemaFieldType};
use adapters::tools::file::File;
use adapters::tools::git::Git;
use adapters::tools::models::Tool;
use adapters::tools::provider::embedded::EmbeddedProvider;
use adapters::tools::provider::js::{self, JavascriptProvider, Package};
use adapters::tools::provider::mcp::{McpProvider, ServerAnswer};
use adapters::tools::set::EmbeddedTool;

#[test]
fn file_tool_set_lists_six_tools() {
    let set = File::new();
    assert_eq!(set.name(), "file");
    assert_eq!(set.description(), "A tool for reading/writing files and listing directories.");
    let names: Vec<String> = set.list().into_iter().map(|t| t.name).collect();
    assert_eq!(names, vec!["file_delete", "file_find", "file_mkdir", "file_read", "file_search", "file_write"]);
}

#[test]
fn git_tool_set_lists_its_tools() {
    let set = Git::new();
    assert_eq!(set.name(), "git");
    assert_eq!(set.description(), "A tool for interacting with Git repositories.");
    let names: Vec<String> = set.list().into_iter().map(|t| t.name).collect();
    assert_eq!(names, vec!["git_clone", "git_checkout", "git_diff", "git_branch_delete", "git_branches"]);
}

#[test]
fn tool_set_get_and_resolve() {
    let set = File::new();
    let t = set.get("file_read").unwrap();
    assert_eq!(t.description, "Reads files from the filesystem");
    let e = set.get("nope").unwrap_err();
    assert_eq!(e.kind, ErrorKind::NotFound);
    assert_eq!(e.code, "tool_not_found");
    assert_eq!(e.message, "Tool with name 'nope' not found");
    assert_eq!(set.resolve("file_write").unwrap(), EmbeddedTool::FileWrite);
    let e = set.resolve("git_diff").unwrap_err();
    assert_eq!(e.kind, ErrorKind::Validation);
    assert_eq!(e.message, "Invalid tool: git_diff");
}

#[test]
fn embedded_provider_finds_every_listed_tool() {
    let p = EmbeddedProvider::new();
    let listed = p.list();
    assert_eq!(listed.len(), 11);
    for t in &listed {
        let got = p.get(&t.name).unwrap();
        assert_eq!(got.name, t.name);
        assert!(p.resolve(&t.name).is_ok());
    }
    assert_eq!(p.resolve("git_branches").unwrap(), EmbeddedTool::GitBranches);
    let e = p.resolve("missing").unwrap_err();
    assert_eq!(e.kind, ErrorKind::NotFound);
    assert_eq!(e.message, "Tool with name 'missing' not found");
}

fn schema(name: &str) -> Schema {
    let mut s = Schema::new(name, "");
    s.add_property("q", true, SchemaField::new(SchemaFieldType::String, "query", None));
    s
}

fn script(main: &str, description: &str) -> js::Tool {
    js::Tool {
        directory: String::new(),
        package: String::new(),
        main: main.to_string(),
        description: description.to_string(),
        scopes: Scopes { fetch: Some(FetchScope { urls: vec!["https://x".to_string()], methods: vec!["get".to_string()] }) },
        parameters: schema("weather"),
    }
}

#[test]
fn js_provider_reload_list_get() {
    let package = Package {
        name: "pkg".to_string(),
        tools: vec![("weather".to_string(), script("index.js", "Weather")), ("time".to_string(), script("t.js", "Time"))],
    };
    let entries = js::entries_of("/tools/pkg", package);
    assert_eq!(entries[0].1.directory, "/tools/pkg");
    assert_eq!(entries[0].1.package, "pkg");
    let mut p = JavascriptProvider::new();
    p.reload(entries);
    let listed = p.list();
    assert_eq!(listed.len(), 2);
    assert_eq!(listed[0].name, "js_weather");
    assert_eq!(listed[1].name, "js_time");
    let t = p.get("js_weather").unwrap();
    assert_eq!(t.name, "js_weather");
    assert_eq!(t.description, "Weather");
    assert_eq!(t.schema.properties[0].name, "q");
    assert_eq!(p.get("time").unwrap().name, "js_time");
    let e = p.get("js_none").unwrap_err();
    assert_eq!(e.kind, ErrorKind::NotFound);
    assert_eq!(e.message, "Tool with name 'none' not found");
}

#[test]
fn js_provider_reload_keeps_last_duplicate() {
    let mut p = JavascriptProvider::new();
    p.reload(vec![("a".to_string(), script("1.js", "first")), ("a".to_string(), script("2.js", "second"))]);
    assert_eq!(p.list().len(), 1);
    assert_eq!(p.get("a").unwrap().description, "second");
}

#[test]
fn js_provider_prepares_runs() {
    let package = Package { name: "pkg".to_string(), tools: vec![("weather".to_string(), script("index.js", "Weather"))] };
    let mut p = JavascriptProvider::new();
    p.reload(js::entries_of("/tools/pkg", package));
    let run = p.prepare("js_weather").unwrap();
    assert_eq!(run.javascript.directory(), "/tools/pkg");
    assert_eq!(run.javascript.entrypoint(), "/tools/pkg/index.js");
    assert!(run.javascript.fetch_enabled());
    assert_eq!(run.configuration_key, "tools.configuration.js_pkg");
    assert!(p.prepare("js_other").is_err());
    assert_eq!(JavascriptProvider::finish("js_weather", Some("sunny".to_string())).unwrap(), "sunny");
    let e = JavascriptProvider::finish("js_weather", None).unwrap_err();
    assert_eq!(e.kind, ErrorKind::Internal);
    assert_eq!(e.code, "tool_failed");
    assert_eq!(e.message, "Tool 'js_weather' execution returned non-string result.");
    assert_eq!(JavascriptProvider::failed("js_weather", "boom").message, "Tool 'js_weather' execution failed: boom");
}

#[test]
fn js_script_name_strips_prefix_once() {
    assert_eq!(JavascriptProvider::script_name("js_js_x"), "js_x");
    assert_eq!(JavascriptProvider::script_name("plain"), "plain");
}

fn server(name: &str) -> McpServer {
    McpServer { name: name.to_string(), description: String::new(), url: "http://localhost/mcp".to_string(), credentials: None }
}

fn tool(name: &str) -> Tool {
    Tool { name: name.to_string(), description: format!("{} tool", name), schema: schema(name) }
}

#[test]
fn mcp_provider_names_tools_by_server() {
    let mut p = McpProvider::new();
    let answers = vec![
        (server("files"), ServerAnswer::Listed(vec![tool("read"), tool("write")])),
        (server("down"), ServerAnswer::Unreached),
    ];
    assert!(p.reload(answers).is_ok());
    let listed = p.list();
    assert_eq!(listed.len(), 2);
    assert_eq!(listed[0].name, "mcp_files_read");
    assert_eq!(p.get("mcp_files_write").unwrap().description, "write tool");
    let (srv, remote) = p.resolve("mcp_files_read").unwrap();
    assert_eq!(srv.name, "files");
    assert_eq!(remote, "read");
    let e = p.get("read").unwrap_err();
    assert_eq!(e.message, "Tool with name 'read' not found");
}

#[test]
fn mcp_provider_keeps_its_tools_when_a_reload_fails() {
    let mut p = McpProvider::new();
    assert!(p.reload(vec![(server("files"), ServerAnswer::Listed(vec![tool("read")]))]).is_ok());
    let answers = vec![
        (server("other"), ServerAnswer::Listed(vec![tool("x")])),
        (server("stuck"), ServerAnswer::EndFailed(AppError::new(ErrorKind::Internal, "internal_error", "cannot end".to_string()))),
        (server("late"), ServerAnswer::Listed(vec![tool("y")])),
    ];
    assert_eq!(p.reload(answers).unwrap_err().message, "cannot end");
    assert_eq!(p.list().len(), 1);
    assert_eq!(p.list()[0].name, "mcp_files_read");
    assert!(p.resolve("mcp_other_x").is_err());
}
