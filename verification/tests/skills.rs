use adapters::error::{AppError, ErrorKind};
use adapters::mcp::McpServer;
use adapters::schema::Schema;
use adapters::skills::file::{
    completed, has_access_to_path, listing_answer, read_selection, record_listed, scope_roots, target_in, File, FileAction,
    FileArguments,
};
use adapters::skills::models::{Call, CallValue, Skill, SkillPermission};
use adapters::skills::provider::embedded::EmbeddedProvider;
use adapters::skills::provider::js::{self, Beaver, JavascriptProvider, Package, PackageConfig};
use adapters::skills::provider::mcp::{McpProvider, ServerAnswer};
use adapters::js::Scopes;

fn call(args: Vec<(&str, CallValue)>) -> Call {
    Call { name: "file".to_string(), arguments: args.into_iter().map(|(k, v)| (k.to_string(), v)).collect() }
}

fn text(s: &str) -> CallValue {
    CallValue::Text(s.to_string())
}

fn permission(roles: &[&str]) -> SkillPermission {
    SkillPermission {
        name: "file".to_string(),
        confirmation_required: false,
        roles: roles.iter().map(|r| r.to_string()).collect(),
        scopes: Vec::new(),
    }
}

#[test]
fn arguments_are_read_and_checked() {
    let e = File::skill_call_to_arguments(&call(vec![("path", text("/a"))])).err().unwrap();
    assert_eq!(e.kind, ErrorKind::Validation);
    assert_eq!(e.code, "skill_failed");
    assert_eq!(e.message, "Missing required argument 'action'");
    let e = File::skill_call_to_arguments(&call(vec![("action", text("read"))])).err().unwrap();
    assert_eq!(e.message, "Missing required argument 'path'");
    let e = File::skill_call_to_arguments(&call(vec![("action", text("read")), ("path", text("/a")), ("start", CallValue::Integer(0))]))
        .err()
        .unwrap();
    assert_eq!(e.message, "'start' must be >= 1");
    let e = File::skill_call_to_arguments(&call(vec![("action", text("read")), ("path", text("/a")), ("length", CallValue::Integer(-3))]))
        .err()
        .unwrap();
    assert_eq!(e.message, "'length' must be >= 1");
    let a = File::skill_call_to_arguments(&call(vec![
        ("action", text("write")),
        ("path", text("/a/b.txt")),
        ("start", CallValue::Integer(2)),
        ("append", CallValue::Boolean(true)),
        ("recursive", text("yes")),
        ("content", text("hi")),
    ]))
    .ok()
    .unwrap();
    assert_eq!(a.action, "write");
    assert_eq!(a.start, Some(2));
    assert_eq!(a.length, None);
    assert!(a.append);
    assert!(!a.recursive);
    assert_eq!(a.content, Some("hi".to_string()));
}

fn args(action: &str, path: &str, content: Option<&str>) -> FileArguments {
    FileArguments {
        action: action.to_string(),
        path: path.to_string(),
        start: None,
        length: None,
        recursive: false,
        append: false,
        content: content.map(|c| c.to_string()),
    }
}

#[test]
fn plan_checks_roles_and_arguments() {
    let e = File::plan(args("read", "/a", None), &permission(&["list"])).err().unwrap();
    assert_eq!(e.kind, ErrorKind::Unauthorized);
    assert_eq!(e.message, "Can not read files without role 'read'.");
    let e = File::plan(args("mkdir", "/a", None), &permission(&[])).err().unwrap();
    assert_eq!(e.message, "Can not create directories without role 'mkdir'.");
    let e = File::plan(args("chmod", "/a", None), &permission(&["chmod"])).err().unwrap();
    assert_eq!(e.kind, ErrorKind::Validation);
    assert_eq!(e.message, "Unsupported action 'chmod'");
    let e = File::plan(args("write", "/a/b", None), &permission(&["write"])).err().unwrap();
    assert_eq!(e.message, "Missing 'content' argument for write action.");
    let e = File::plan(args("write", "/", Some("x")), &permission(&["write"])).err().unwrap();
    assert_eq!(e.message, "Invalid path '/'");
    match File::plan(args("write", "/a/b.txt", Some("x")), &permission(&["write"])).ok().unwrap() {
        FileAction::Write { parent, file_name, content, .. } => {
            assert_eq!(parent, "/a");
            assert_eq!(file_name, "b.txt");
            assert_eq!(content, "x");
        },
        _ => panic!("expected a write"),
    }
    match File::plan(args("list", "/d", None), &permission(&["list"])).ok().unwrap() {
        FileAction::List { path, recursive } => {
            assert_eq!(path, "/d");
            assert!(!recursive);
        },
        _ => panic!("expected a listing"),
    }
}

#[test]
fn skill_read_selection() {
    let content = "1\n2\n3\n4\n5";
    assert_eq!(read_selection(content, Some(2), Some(2)), "2\n3");
    assert_eq!(read_selection(content, None, Some(1)), "1");
    assert_eq!(read_selection(content, Some(4), None), "4\n5");
    assert_eq!(read_selection(content, None, None), content);
}

#[test]
fn access_needs_a_resolved_path_within_a_scope() {
    assert!(!has_access_to_path(None, &Vec::new()));
    assert!(has_access_to_path(Some("/x"), &Vec::new()));
    let scopes = vec![None, Some("/root/work".to_string())];
    assert!(has_access_to_path(Some("/root/work/a"), &scopes));
    assert!(!has_access_to_path(Some("/root/other"), &scopes));
    let mut p = permission(&[]);
    p.scopes = vec!["/work/".to_string(), "docs".to_string()];
    assert_eq!(scope_roots("/root/", &p), vec!["/root/work".to_string(), "/root/docs".to_string()]);
}

#[test]
fn listing_is_cut_at_the_limit() {
    let mut items: Vec<String> = Vec::new();
    for i in 0..999 {
        assert!(!record_listed(&mut items, format!("/f{}", i)));
    }
    assert!(record_listed(&mut items, "/last".to_string()));
    assert_eq!(items.len(), 1001);
    assert_eq!(items[999], "/last");
    assert_eq!(items[1000], "[truncated]");
}

#[test]
fn listing_answer_hides_chroot_and_denied_entries() {
    let items = vec!["/root/a".to_string(), "/root/b".to_string(), "/root/root/c".to_string()];
    let granted = vec![true, false, true];
    assert_eq!(listing_answer(&items, &granted, "/root/"), "/a\n/c");
    assert_eq!(completed(), "Action completed successfully √");
    assert_eq!(target_in("/a", "b"), "/a/b");
}

#[test]
fn file_skill_schema() {
    let s = File.as_skill();
    assert_eq!(s.name, "file");
    assert_eq!(s.parameters.properties.len(), 7);
    assert_eq!(
        s.parameters.properties[0].field.enum_values,
        Some(vec!["read".to_string(), "list".to_string(), "write".to_string(), "delete".to_string(), "mkdir".to_string()])
    );
}

fn skill(name: &str) -> Skill {
    Skill { name: name.to_string(), description: format!("{} skill", name), parameters: Schema::new(name, "") }
}

#[test]
fn embedded_skills_refuse_duplicates() {
    let mut p = EmbeddedProvider::new();
    assert_eq!(p.list().len(), 1);
    let e = p.add_skill(skill("file")).err().unwrap();
    assert_eq!(e.kind, ErrorKind::Conflict);
    assert_eq!(e.code, "skill_already_exists");
    assert_eq!(e.message, "Skill with name 'file' already exists");
    assert!(p.add_skill(skill("shell")).is_ok());
    assert_eq!(p.list().len(), 2);
    assert_eq!(p.get("shell").ok().unwrap().description, "shell skill");
    assert_eq!(p.resolve("shell").ok().unwrap(), 1);
    let e = p.get("none").err().unwrap();
    assert_eq!(e.kind, ErrorKind::NotFound);
    assert_eq!(e.message, "Skill with name 'none' not found");
}

#[test]
fn js_skills_provider() {
    let declared = js::Skill {
        directory: String::new(),
        package: String::new(),
        main: "main.js".to_string(),
        description: "Greets".to_string(),
        scopes: Scopes { fetch: None },
        parameters: Schema::new("greet", ""),
    };
    let package = Package { name: "hello".to_string(), config: PackageConfig { beaver: Beaver { skills: vec![("greet".to_string(), declared)] } } };
    let mut p = JavascriptProvider::new();
    p.reload(js::entries_of("/skills/hello", package));
    assert_eq!(p.list()[0].name, "js_greet");
    let run = p.prepare("js_greet").ok().unwrap();
    assert_eq!(run.configuration_key, "skills.configuration.js_hello");
    assert!(!run.javascript.fetch_enabled());
    let e = p.get("js_bye").err().unwrap();
    assert_eq!(e.code, "skill_not_found");
    assert_eq!(e.message, "Skill with name 'bye' not found");
    let e = p.add_skill(skill("x")).err().unwrap();
    assert_eq!(e.kind, ErrorKind::Conflict);
    assert_eq!(e.message, "Can not programmatically add skills to the JavascriptProvider");
}

#[test]
fn mcp_skills_provider() {
    let server = |n: &str| McpServer { name: n.to_string(), description: String::new(), url: "http://h".to_string(), credentials: None };
    let mut p = McpProvider::new();
    let answers = vec![
        (server("srv"), ServerAnswer::Listed(vec![skill("search")])),
        (server("down"), ServerAnswer::Unreached),
    ];
    assert!(p.reload(answers).is_ok());
    assert_eq!(p.list().len(), 1);
    assert_eq!(p.list()[0].name, "mcp_srv_search");
    let (_, remote) = p.resolve("mcp_srv_search").ok().unwrap();
    assert_eq!(remote, "search");
    let failing = vec![
        (server("other"), ServerAnswer::Listed(vec![skill("fetch")])),
        (server("stuck"), ServerAnswer::EndFailed(AppError::new(ErrorKind::Internal, "internal_error", "cannot end".to_string()))),
    ];
    let e = p.reload(failing).err().unwrap();
    assert_eq!(e.message, "cannot end");
    assert_eq!(p.list().len(), 1);
    assert_eq!(p.list()[0].name, "mcp_srv_search");
    let e = p.add_skill(skill("y")).err().unwrap();
    assert_eq!(e.message, "Can not programmatically add skills to the McpProvider");
}
