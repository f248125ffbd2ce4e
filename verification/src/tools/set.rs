use vstd::prelude::*;

use crate::error::{AppError, ErrorKind};
use crate::schema::Schema;
use crate::text::{concat2, concat3, owned, str_eq};
use crate::tools::file::delete::{delete_schema, Delete};
use crate::tools::file::find::{find_schema, Find};
use crate::tools::file::mkdir::{mkdir_schema, Mkdir};
use crate::tools::file::read::{read_schema, Read};
use crate::tools::file::search::{search_schema, Search};
use crate::tools::file::write::{write_schema, Write};
use crate::tools::git::tools::{
    branch_delete_schema, branches_schema, checkout_schema, clone_schema, diff_schema,
    BranchDelete, Branches, Checkout, Diff,
};
use crate::tools::models::Tool;

verus! {

/// The tools built into the adapters.
#[derive(Debug, Clone, Copy, PartialEq, Eq, Structural)]
pub enum EmbeddedTool {
    FileDelete,
    FileFind,
    FileMkdir,
    FileRead,
    FileSearch,
    FileWrite,
    GitClone,
    GitCheckout,
    GitDiff,
    GitBranchDelete,
    GitBranches,
}

/// The name under which a built-in tool is called.
pub open spec fn tool_name(t: EmbeddedTool) -> Seq<char> {
    match t {
        EmbeddedTool::FileDelete => "file_delete"@,
        EmbeddedTool::FileFind => "file_find"@,
        EmbeddedTool::FileMkdir => "file_mkdir"@,
        EmbeddedTool::FileRead => "file_read"@,
        EmbeddedTool::FileSearch => "file_search"@,
        EmbeddedTool::FileWrite => "file_write"@,
        EmbeddedTool::GitClone => "git_clone"@,
        EmbeddedTool::GitCheckout => "git_checkout"@,
        EmbeddedTool::GitDiff => "git_diff"@,
        EmbeddedTool::GitBranchDelete => "git_branch_delete"@,
        EmbeddedTool::GitBranches => "git_branches"@,
    }
}

/// What a built-in tool says it does.
pub open spec fn tool_description(t: EmbeddedTool) -> Seq<char> {
    match t {
        EmbeddedTool::FileDelete => "Deletes files and directories on the filesystem (directories are deleted recursively)"@,
        EmbeddedTool::FileFind => "Finds files and directories in a directory hierarchy."@,
        EmbeddedTool::FileMkdir => "Creates directories on the filesystem (like mkdir -p)"@,
        EmbeddedTool::FileRead => "Reads files from the filesystem"@,
        EmbeddedTool::FileSearch => "Recursively searches files (max 10MB) for content matching a regex pattern."@,
        EmbeddedTool::FileWrite => "Writes a file to the filesystem"@,
        EmbeddedTool::GitClone => "Clones a Git repository into a directory within the current chroot."@,
        EmbeddedTool::GitCheckout => "Checks out a branch in an existing local repository, creating it locally from a matching remote-tracking branch or HEAD if needed."@,
        EmbeddedTool::GitDiff => "Shows a diff in an existing local repository: unstaged changes against the index when 'from' and 'to' are omitted, or the diff between two revisions (commit SHAs, branch names, tags, HEAD~N, etc.) when both are given."@,
        EmbeddedTool::GitBranchDelete => "Deletes a local branch in an existing repository, optionally also deleting the matching branch on the remote."@,
        EmbeddedTool::GitBranches => "Lists local branches in an existing repository, marking the currently checked out branch."@,
    }
}

/// `s` is the parameter schema of the built-in tool `t`.
pub open spec fn tool_schema(t: EmbeddedTool, s: Schema) -> bool {
    match t {
        EmbeddedTool::FileDelete => delete_schema(s),
        EmbeddedTool::FileFind => find_schema(s),
        EmbeddedTool::FileMkdir => mkdir_schema(s),
        EmbeddedTool::FileRead => read_schema(s),
        EmbeddedTool::FileSearch => search_schema(s),
        EmbeddedTool::FileWrite => write_schema(s),
        EmbeddedTool::GitClone => clone_schema(s),
        EmbeddedTool::GitCheckout => checkout_schema(s),
        EmbeddedTool::GitDiff => diff_schema(s),
        EmbeddedTool::GitBranchDelete => branch_delete_schema(s),
        EmbeddedTool::GitBranches => branches_schema(s),
    }
}

/// `d` is how the built-in tool `t` presents itself.
pub open spec fn describes(d: Tool, t: EmbeddedTool) -> bool {
    &&& d.name@ == tool_name(t)
    &&& d.description@ == tool_description(t)
    &&& tool_schema(t, d.schema)
}

/// The index of the first of `tools` called `name`, if any.
pub open spec fn first_named(tools: Seq<EmbeddedTool>, name: Seq<char>) -> Option<int> {
    if exists|i: int| 0 <= i < tools.len() && tool_name(#[trigger] tools[i]) == name {
        Some(choose|i: int| {
            &&& 0 <= i < tools.len()
            &&& tool_name(#[trigger] tools[i]) == name
            &&& forall|j: int| 0 <= j < i ==> tool_name(#[trigger] tools[j]) != name
        })
    } else {
        None
    }
}

/// The first match found by a left-to-right scan is the one `first_named`
/// speaks of.
pub proof fn lemma_first_named(tools: Seq<EmbeddedTool>, name: Seq<char>, i: int)
    requires
        0 <= i < tools.len(),
        tool_name(tools[i]) == name,
        forall|j: int| 0 <= j < i ==> tool_name(#[trigger] tools[j]) != name,
    ensures
        first_named(tools, name) == Some(i),
{
    assert(exists|k: int| 0 <= k < tools.len() && tool_name(#[trigger] tools[k]) == name);
    let c = choose|k: int| {
        &&& 0 <= k < tools.len()
        &&& tool_name(#[trigger] tools[k]) == name
        &&& forall|j: int| 0 <= j < k ==> tool_name(#[trigger] tools[j]) != name
    };
    assert(c == i) by {
        if c < i {
            assert(tool_name(tools[c]) != name);
        } else if c > i {
            assert(tool_name(tools[i]) != name);
        }
    }
}

/// The message of a lookup by an unknown tool name.
pub open spec fn not_found_message(name: Seq<char>) -> Seq<char> {
    "Tool with name '"@ + name + "' not found"@
}

/// The error of a lookup by an unknown tool name.
pub fn tool_not_found(name: &str) -> (e: AppError)
    ensures
        e.is(ErrorKind::NotFound, "tool_not_found"@, not_found_message(name@)),
{
    AppError::new(ErrorKind::NotFound, "tool_not_found", concat3("Tool with name '", name, "' not found"))
}

impl EmbeddedTool {
    pub fn name(&self) -> (r: String)
        ensures
            r@ == tool_name(*self),
    {
        match self {
            EmbeddedTool::FileDelete => Delete.name(),
            EmbeddedTool::FileFind => Find.name(),
            EmbeddedTool::FileMkdir => Mkdir.name(),
            EmbeddedTool::FileRead => Read.name(),
            EmbeddedTool::FileSearch => Search.name(),
            EmbeddedTool::FileWrite => Write.name(),
            EmbeddedTool::GitClone => crate::tools::git::tools::Clone.name(),
            EmbeddedTool::GitCheckout => Checkout.name(),
            EmbeddedTool::GitDiff => Diff.name(),
            EmbeddedTool::GitBranchDelete => BranchDelete.name(),
            EmbeddedTool::GitBranches => Branches.name(),
        }
    }

    pub fn description(&self) -> (r: String)
        ensures
            r@ == tool_description(*self),
    {
        match self {
            EmbeddedTool::FileDelete => Delete.description(),
            EmbeddedTool::FileFind => Find.description(),
            EmbeddedTool::FileMkdir => Mkdir.description(),
            EmbeddedTool::FileRead => Read.description(),
            EmbeddedTool::FileSearch => Search.description(),
            EmbeddedTool::FileWrite => Write.description(),
            EmbeddedTool::GitClone => crate::tools::git::tools::Clone.description(),
            EmbeddedTool::GitCheckout => Checkout.description(),
            EmbeddedTool::GitDiff => Diff.description(),
            EmbeddedTool::GitBranchDelete => BranchDelete.description(),
            EmbeddedTool::GitBranches => Branches.description(),
        }
    }

    pub fn schema(&self) -> (s: Schema)
        ensures
            tool_schema(*self, s),
    {
        match self {
            EmbeddedTool::FileDelete => Delete.schema(),
            EmbeddedTool::FileFind => Find.schema(),
            EmbeddedTool::FileMkdir => Mkdir.schema(),
            EmbeddedTool::FileRead => Read.schema(),
            EmbeddedTool::FileSearch => Search.schema(),
            EmbeddedTool::FileWrite => Write.schema(),
            EmbeddedTool::GitClone => crate::tools::git::tools::Clone.schema(),
            EmbeddedTool::GitCheckout => Checkout.schema(),
            EmbeddedTool::GitDiff => Diff.schema(),
            EmbeddedTool::GitBranchDelete => BranchDelete.schema(),
            EmbeddedTool::GitBranches => Branches.schema(),
        }
    }

    /// How this tool presents itself to a model.
    pub fn as_tool(&self) -> (d: Tool)
        ensures
            describes(d, *self),
    {
        Tool { name: self.name(), description: self.description(), schema: self.schema() }
    }
}

/// A named group of built-in tools.
pub struct EmbeddedToolSet {
    name: String,
    description: String,
    tools: Vec<EmbeddedTool>,
}

impl EmbeddedToolSet {
    pub closed spec fn name_view(&self) -> Seq<char> {
        self.name@
    }

    pub closed spec fn description_view(&self) -> Seq<char> {
        self.description@
    }

    /// The tools of the set, in order.
    pub closed spec fn tools(&self) -> Seq<EmbeddedTool> {
        self.tools@
    }

    pub fn new(name: &str, description: &str, tools: Vec<EmbeddedTool>) -> (s: EmbeddedToolSet)
        ensures
            s.name_view() == name@,
            s.description_view() == description@,
            s.tools() == tools@,
    {
        EmbeddedToolSet { name: owned(name), description: owned(description), tools }
    }

    pub fn name(&self) -> (r: String)
        ensures
            r@ == self.name_view(),
    {
        owned(self.name.as_str())
    }

    pub fn description(&self) -> (r: String)
        ensures
            r@ == self.description_view(),
    {
        owned(self.description.as_str())
    }

    /// The tools of the set, in order.
    pub fn members(&self) -> (r: &Vec<EmbeddedTool>)
        ensures
            r@ == self.tools(),
    {
        &self.tools
    }

    /// How each tool of the set presents itself, in order.
    pub fn list(&self) -> (r: Vec<Tool>)
        ensures
            r@.len() == self.tools().len(),
            forall|i: int| 0 <= i < r@.len() ==> describes(#[trigger] r@[i], self.tools()[i]),
    {
        let mut out: Vec<Tool> = Vec::new();
        let mut i: usize = 0;
        while i < self.tools.len()
            invariant
                i <= self.tools@.len(),
                out@.len() == i,
                forall|k: int| 0 <= k < i ==> describes(#[trigger] out@[k], self.tools@[k]),
            decreases self.tools.len() - i,
        {
            out.push(self.tools[i].as_tool());
            i = i + 1;
        }
        out
    }

    /// The first tool of the set called `name`.
    pub fn find(&self, name: &str) -> (r: Option<EmbeddedTool>)
        ensures
            match first_named(self.tools(), name@) {
                Some(i) => r == Some(self.tools()[i]),
                None => r is None,
            },
    {
        let mut i: usize = 0;
        while i < self.tools.len()
            invariant
                i <= self.tools@.len(),
                forall|j: int| 0 <= j < i ==> tool_name(#[trigger] self.tools@[j]) != name@,
            decreases self.tools.len() - i,
        {
            let t = self.tools[i];
            let n = t.name();
            if str_eq(n.as_str(), name) {
                proof {
                    lemma_first_named(self.tools@, name@, i as int);
                }
                return Some(t);
            }
            i = i + 1;
        }
        proof {
            if exists|k: int| 0 <= k < self.tools@.len() && tool_name(#[trigger] self.tools@[k]) == name@ {
                let k = choose|k: int| 0 <= k < self.tools@.len() && tool_name(#[trigger] self.tools@[k]) == name@;
                assert(tool_name(self.tools@[k]) != name@);
            }
        }
        None
    }

    /// How the tool `name` presents itself; an error when the set has no
    /// such tool.
    pub fn get(&self, name: &str) -> (r: Result<Tool, AppError>)
        ensures
            match first_named(self.tools(), name@) {
                Some(i) => r matches Ok(d) && describes(d, self.tools()[i]),
                None => r matches Err(e) && e.is(ErrorKind::NotFound, "tool_not_found"@, not_found_message(name@)),
            },
    {
        match self.find(name) {
            Some(t) => Ok(t.as_tool()),
            None => Err(tool_not_found(name)),
        }
    }

    /// The tool that a call of `name` runs; an error when the set has no
    /// such tool.
    pub fn resolve(&self, name: &str) -> (r: Result<EmbeddedTool, AppError>)
        ensures
            match first_named(self.tools(), name@) {
                Some(i) => r == Ok::<EmbeddedTool, AppError>(self.tools()[i]),
                None => r matches Err(e) && e.is(ErrorKind::Validation, "tool_not_found"@, "Invalid tool: "@ + name@),
            },
    {
        match self.find(name) {
            Some(t) => Ok(t),
            None => Err(AppError::new(ErrorKind::Validation, "tool_not_found", concat2("Invalid tool: ", name))),
        }
    }
}

} // verus!
