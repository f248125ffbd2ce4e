use adapters::error::ErrorKind;
use adapters::paths::{join_path, relative_display};
use adapters::registry::Registry;
use adapters::text::{decimal_string, is_blank, lines, split_char, trim_start_matches};
use adapters::tools::file::find::{EntryKind, Find, FindArguments};
use adapters::tools::file::permissions::scope_error_message;
use adapters::tools::models::ToolPermission;
use adapters::tools::git::configuration::get_repository_by_url;
use adapters::tools::git::git_repository::{
    AllowedCredentials, BranchSource, CertificateStatus, CredentialChoice, CredentialState, DiffRequest, GitError, GitRepository,
    HostKeyCheck, PullStep,
};
use adapters::tools::git::permissions::{clone_target_path, validate_path};
use adapters::tools::git::tools::{BranchDelete, BranchDeleteArguments, Branches, Checkout, CheckoutArguments, Diff, DiffArguments};
use adapters::tools::git::Repository;

fn repo(url: &str) -> Repository {
    let mut r = Repository::local();
    r.url = url.to_string();
    r.email = "dev@example.com".to_string();
    r
}

#[test]
fn refs_and_refspecs() {
    assert_eq!(GitRepository::local_ref("main"), "refs/heads/main");
    assert_eq!(GitRepository::remote_ref("main"), "refs/remotes/origin/main");
    assert_eq!(GitRepository::push_refspec("refs/heads/x"), "refs/heads/x:refs/heads/x");
    assert_eq!(GitRepository::delete_remote_branch("old"), ":refs/heads/old");
    assert_eq!(GitRepository::fetch_refspec(), "+refs/heads/*:refs/remotes/origin/*");
}

#[test]
fn current_branch_check() {
    assert_eq!(GitRepository::is_current_branch(Ok("main".to_string()), "main").ok(), Some(true));
    assert_eq!(GitRepository::is_current_branch(Ok("dev".to_string()), "main").ok(), Some(false));
    let e = GitRepository::is_current_branch(Err(GitError::new("no head")), "main").err().unwrap();
    assert_eq!(e.message, "no head");
}

#[test]
fn pull_diff_and_checkout_decisions() {
    assert!(matches!(GitRepository::pull_step(true, false), Ok(PullStep::UpToDate)));
    assert!(matches!(GitRepository::pull_step(false, true), Ok(PullStep::FastForward)));
    assert_eq!(GitRepository::pull_step(false, false).err().unwrap().message, "non-fast-forward: a real merge is required");
    assert!(matches!(GitRepository::diff_request(None, None), Ok(DiffRequest::IndexToWorkdir)));
    match GitRepository::diff_request(Some("a"), Some("b")) {
        Ok(DiffRequest::TreeToTree(a, b)) => assert_eq!((a.as_str(), b.as_str()), ("a", "b")),
        _ => panic!("expected two trees"),
    }
    assert!(GitRepository::diff_request(Some("a"), None).is_err());
    assert_eq!(GitRepository::diff_line('+', "x"), "+x");
    assert_eq!(GitRepository::diff_line('H', "hunk"), "hunk");
    assert_eq!(GitRepository::branch_source(false, true), BranchSource::FromRemote);
    assert_eq!(GitRepository::branch_source(false, false), BranchSource::FromHead);
}

#[test]
fn credentials_are_offered_once_each() {
    let mut r = repo("git@host:x.git");
    r.password = Some("pw".to_string());
    r.ssh_key = Some("KEY".to_string());
    let g = GitRepository::new(r, "/repo");
    let all = AllowedCredentials { user_pass_plaintext: true, ssh_key: true, username: true };
    let mut state = CredentialState { offered_password: false, offered_ssh_key: false };
    match g.choose_credential(&mut state, Some("urluser"), all) {
        CredentialChoice::UserPassword(u, p) => assert_eq!((u.as_str(), p.as_str()), ("urluser", "pw")),
        _ => panic!("expected the password first"),
    }
    assert!(matches!(g.choose_credential(&mut state, None, all), CredentialChoice::SshKey(_, _)));
    match g.choose_credential(&mut state, None, all) {
        CredentialChoice::Username(u) => assert_eq!(u, "git"),
        _ => panic!("expected the bare user name"),
    }
    let none = AllowedCredentials { user_pass_plaintext: true, ssh_key: true, username: false };
    assert!(matches!(g.choose_credential(&mut state, None, none), CredentialChoice::NoCredential));
    assert_eq!(g.signature_name(), "dev@example.com");
}

#[test]
fn certificates() {
    assert_eq!(GitRepository::certificate_check(Some(HostKeyCheck::Match), false, "h").ok(), Some(CertificateStatus::CertificateOk));
    assert_eq!(
        GitRepository::certificate_check(Some(HostKeyCheck::Mismatch), false, "h").err().unwrap().message,
        "ssh host key mismatch for host 'h'"
    );
    assert_eq!(GitRepository::certificate_check(None, true, "h").ok(), Some(CertificateStatus::CertificatePassthrough));
    assert_eq!(GitRepository::certificate_check(None, false, "h").err().unwrap().message, "invalid host certificate");
    let none: Vec<String> = Vec::new();
    let key: &[u8] = &[0, 0, 0, 7, 115, 115, 104, 45, 114, 115, 97];
    assert_eq!(
        GitRepository::host_certificate(&none, "h", Some(key), false).err().unwrap().message,
        "ssh host key not found for host 'h'"
    );
    assert_eq!(GitRepository::host_certificate(&none, "h", None, true).ok(), Some(CertificateStatus::CertificatePassthrough));
    let bad = vec!["garbage".to_string()];
    assert_eq!(
        GitRepository::host_certificate(&bad, "h", Some(key), false).err().unwrap().message,
        "failed to read known hosts for host 'h'"
    );
}

#[test]
fn repositories_by_url() {
    let repos = vec![repo("https://a/x.git"), repo("^https://b/.*$"), repo("https://b/y.git")];
    let found = get_repository_by_url(repos, "https://b/y.git").ok().unwrap();
    assert_eq!(found.url, "https://b/y.git");
    let e = get_repository_by_url(vec![repo("https://a/x.git")], "https://c").err().unwrap();
    assert_eq!(e.kind, ErrorKind::NotFound);
    assert_eq!(e.message, "No configuration for repository: https://c");
}

#[test]
fn repository_paths() {
    assert!(validate_path("/repo").is_ok());
    assert_eq!(validate_path("repo").unwrap_err().message, "Path must be absolute: 'repo'");
    assert_eq!(clone_target_path("/chroot", "//work/r", false).unwrap(), "/chroot/work/r");
    assert!(clone_target_path("/chroot", "/work/r", true).is_err());
}

#[test]
fn git_tool_answers() {
    let args = BranchDeleteArguments { path: "/r".to_string(), branch: "b".to_string(), delete_remote: true, url: None };
    let e = BranchDelete::check_arguments(&args).unwrap_err();
    assert_eq!(e.message, "The 'url' argument is required when 'delete_remote' is true for tool 'git_branch_delete'");
    let e = BranchDelete::refuse_current(&args, Ok(true)).unwrap_err();
    assert_eq!(e.kind, ErrorKind::Conflict);
    assert_eq!(BranchDelete::deleted_message(&args), "Deleted branch 'b' in repository '/r' and on remote");
    assert_eq!(Branches::format_branches(&vec![("main".to_string(), true), ("dev".to_string(), false)]), "* main\n  dev");
    assert_eq!(Branches::format_branches(&Vec::new()), "No branches found.");
    let co = CheckoutArguments { path: "/r".to_string(), branch: "dev".to_string() };
    assert_eq!(Checkout::outcome(&co, Ok(())).unwrap(), "Checked out branch 'dev' in repository '/r'");
    let d = DiffArguments { path: "/r".to_string(), from: None, to: None };
    assert_eq!(Diff::outcome(&d, Ok(String::new())).unwrap(), "No differences found in repository '/r'.");
    let big: String = (0..1005).map(|i| format!("l{}\n", i)).collect();
    assert!(Diff::truncate_diff(&big).ends_with("\n... (truncated, 5 more lines)"));
}

#[test]
fn outside_wrappers() {
    let mut args = FindArguments::default();
    args.pattern = Some("^a+b$".to_string());
    let re = Find::compile_pattern(&args).unwrap().unwrap();
    let file = EntryKind {
        is_file: true,
        is_dir: false,
        is_symlink: false,
        is_block_device: false,
        is_char_device: false,
        is_fifo: false,
        is_socket: false,
    };
    assert_eq!(Find::accept_entry(None, Some(&re), file, "aaab").unwrap(), true);
    assert_eq!(Find::accept_entry(None, Some(&re), file, "ab c").unwrap(), false);
    args.pattern = Some("(".to_string());
    let e = Find::compile_pattern(&args).err().unwrap();
    assert!(e.message.starts_with("Invalid regex pattern '(': "));
    let permissions = ToolPermission { scopes: vec!["a\"b".to_string()] };
    assert_eq!(scope_error_message(&permissions, "/x"), "Path '/x' is not within allowed scopes: [\"a\\\"b\"]");
    assert!(is_blank(" \u{2003}\t"));
    assert!(!is_blank(" x "));
    assert_eq!(decimal_string(4096), "4096");
}

#[test]
fn text_helpers() {
    assert_eq!(lines("a\r\nb\n\nc"), vec!["a", "b", "", "c"]);
    assert_eq!(split_char("/a//b", '/'), vec!["", "a", "", "b"]);
    assert_eq!(trim_start_matches("ababc", "ab"), "c");
    assert_eq!(join_path("/a/", "b"), "/a/b");
    assert_eq!(join_path("/a", "b"), "/a/b");
    assert_eq!(relative_display("/c/x", "/c"), "/x");
}

#[test]
fn registry_replaces_and_keeps_order() {
    let mut r: Registry<u32> = Registry::new();
    r.insert("a".to_string(), 1);
    r.insert("b".to_string(), 2);
    r.insert("a".to_string(), 3);
    assert_eq!(r.len(), 2);
    assert_eq!(r.get("a"), Some(&3));
    assert_eq!(r.position("b"), Some(1));
    let (name, item) = r.entry(0);
    assert_eq!((name.as_str(), *item), ("a", 3));
    r.replace_all(vec![("x".to_string(), 9), ("y".to_string(), 8), ("x".to_string(), 7)]);
    assert_eq!(r.len(), 2);
    assert_eq!(r.get("x"), Some(&7));
    assert_eq!(r.get("a"), None);
    r.clear();
    assert_eq!(r.len(), 0);
}
