pub mod configuration;
pub mod git_repository;
pub mod permissions;
pub mod tools;

use vstd::prelude::*;

use crate::tools::set::{EmbeddedTool, EmbeddedToolSet};

verus! {

/// The configuration of a Git repository that the tools may clone or push
/// to: its URL (or a `^...$` regex of URLs), the identity used for commits
/// and the credentials.
pub struct Repository {
    pub url: String,
    pub email: String,
    pub display_name: Option<String>,
    pub username: Option<String>,
    pub ssh_key: Option<String>,
    pub password: Option<String>,
    pub known_hosts: Vec<String>,
}

impl Repository {
    /// A repository without URL, identity or credentials, for tools that
    /// only work locally.
    pub fn local() -> (r: Repository)
        ensures
            r.url@ == ""@,
            r.email@ == ""@,
            r.display_name is None,
            r.username is None,
            r.ssh_key is None,
            r.password is None,
            r.known_hosts@.len() == 0,
    {
        proof {
            reveal_strlit("");
        }
        Repository {
            url: String::new(),
            email: String::new(),
            display_name: None,
            username: None,
            ssh_key: None,
            password: None,
            known_hosts: Vec::new(),
        }
    }
}

/// The Git tools, in the order in which they are listed.
pub open spec fn git_tools() -> Seq<EmbeddedTool> {
    seq![
        EmbeddedTool::GitClone,
        EmbeddedTool::GitCheckout,
        EmbeddedTool::GitDiff,
        EmbeddedTool::GitBranchDelete,
        EmbeddedTool::GitBranches,
    ]
}

/// The built-in tools that work on Git repositories.
pub struct Git;

impl Git {
    /// The Git tool set: clone, checkout, diff, branch deletion and branch
    /// listing.
    pub fn new() -> (s: EmbeddedToolSet)
        ensures
            s.name_view() == "git"@,
            s.description_view() == "A tool for interacting with Git repositories."@,
            s.tools() == git_tools(),
    {
        let tools = vec![
            EmbeddedTool::GitClone,
            EmbeddedTool::GitCheckout,
            EmbeddedTool::GitDiff,
            EmbeddedTool::GitBranchDelete,
            EmbeddedTool::GitBranches,
        ];
        EmbeddedToolSet::new("git", "A tool for interacting with Git repositories.", tools)
    }
}

} // verus!
