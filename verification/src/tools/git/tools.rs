use vstd::prelude::*;

use crate::error::{AppError, ErrorKind};
use crate::schema::{plain_field, property_named, Schema, SchemaField, SchemaFieldType};
use crate::text::{concat2, concat3, concat5, decimal, decimal_string, join, join_with, lines, lines_of, owned, views};
use crate::tools::git::git_repository::GitError;

verus! {

/// The tool that deletes a local branch, and optionally the remote one.
pub struct BranchDelete;

/// The tool that lists branches.
pub struct Branches;

/// The tool that checks out a branch.
pub struct Checkout;

/// The tool that clones a repository.
pub struct Clone;

/// The tool that shows a diff.
pub struct Diff;

pub struct BranchDeleteArguments {
    pub path: String,
    pub branch: String,
    pub delete_remote: bool,
    pub url: Option<String>,
}

pub struct BranchesArguments {
    pub path: String,
    pub include_remote: bool,
}

pub struct CheckoutArguments {
    pub path: String,
    pub branch: String,
}

pub struct CloneArguments {
    pub path: String,
    pub url: String,
}

pub struct DiffArguments {
    pub path: String,
    pub from: Option<String>,
    pub to: Option<String>,
}

/// The parameter `path` of the Git tools that work on an existing
/// repository.
pub open spec fn repo_path_property(p: crate::schema::Property) -> bool {
    property_named(p, "path"@, true) && plain_field(p.field, SchemaFieldType::String, "Absolute path within the current chroot to an existing repository."@)
}

fn repo_path_field() -> (f: SchemaField)
    ensures
        plain_field(f, SchemaFieldType::String, "Absolute path within the current chroot to an existing repository."@),
{
    SchemaField::new(SchemaFieldType::String, "Absolute path within the current chroot to an existing repository.", None)
}

pub open spec fn branch_delete_schema(s: Schema) -> bool {
    &&& s.name@ == "git_branch_delete"@
    &&& s.description@ == ""@
    &&& s.properties@.len() == 4
    &&& repo_path_property(s.properties@[0])
    &&& property_named(s.properties@[1], "branch"@, true)
    &&& plain_field(s.properties@[1].field, SchemaFieldType::String, "Name of the local branch to delete."@)
    &&& property_named(s.properties@[2], "delete_remote"@, false)
    &&& plain_field(s.properties@[2].field, SchemaFieldType::Boolean, "If true, also deletes the branch on the remote. Defaults to false."@)
    &&& property_named(s.properties@[3], "url"@, false)
    &&& plain_field(s.properties@[3].field, SchemaFieldType::String, "URL of the Git repository; required only when 'delete_remote' is true."@)
}

impl BranchDelete {
    pub fn name(&self) -> (r: String)
        ensures
            r@ == "git_branch_delete"@,
    {
        owned("git_branch_delete")
    }

    pub fn description(&self) -> (r: String)
        ensures
            r@ == "Deletes a local branch in an existing repository, optionally also deleting the matching branch on the remote."@,
    {
        owned("Deletes a local branch in an existing repository, optionally also deleting the matching branch on the remote.")
    }

    pub fn schema(&self) -> (s: Schema)
        ensures
            branch_delete_schema(s),
    {
        let mut schema = Schema::new("git_branch_delete", "");
        schema.add_property("path", true, repo_path_field());
        schema.add_property("branch", true, SchemaField::new(SchemaFieldType::String, "Name of the local branch to delete.", None));
        schema.add_property(
            "delete_remote",
            false,
            SchemaField::new(SchemaFieldType::Boolean, "If true, also deletes the branch on the remote. Defaults to false.", None),
        );
        schema.add_property(
            "url",
            false,
            SchemaField::new(SchemaFieldType::String, "URL of the Git repository; required only when 'delete_remote' is true.", None),
        );
        schema
    }

    /// Refuses to delete on the remote without knowing the remote's URL.
    pub fn check_arguments(args: &BranchDeleteArguments) -> (r: Result<(), AppError>)
        ensures
            (args.delete_remote && args.url is None) ==> (r matches Err(e) && e.is(
                ErrorKind::Validation,
                "tool_failed"@,
                "The 'url' argument is required when 'delete_remote' is true for tool 'git_branch_delete'"@,
            )),
            !(args.delete_remote && args.url is None) ==> r is Ok,
    {
        if args.delete_remote && args.url.is_none() {
            return Err(AppError::new(
                ErrorKind::Validation,
                "tool_failed",
                owned("The 'url' argument is required when 'delete_remote' is true for tool 'git_branch_delete'"),
            ));
        }
        Ok(())
    }

    /// Refuses to delete the branch that is checked out; a failure to find
    /// out counts as not checked out.
    pub fn refuse_current(args: &BranchDeleteArguments, is_current: Result<bool, GitError>) -> (r: Result<(), AppError>)
        ensures
            (is_current matches Ok(b) && b) ==> (r matches Err(e) && e.is(
                ErrorKind::Conflict,
                "tool_failed"@,
                "Cannot delete branch '"@ + args.branch@ + "': it is the currently checked out branch"@,
            )),
            !(is_current matches Ok(b) && b) ==> r is Ok,
    {
        let current = match is_current {
            Ok(b) => b,
            Err(_) => false,
        };
        if current {
            return Err(AppError::new(
                ErrorKind::Conflict,
                "tool_failed",
                concat3("Cannot delete branch '", args.branch.as_str(), "': it is the currently checked out branch"),
            ));
        }
        Ok(())
    }

    /// The error for a failed deletion of the local (or, when `remote`, the
    /// remote) branch.
    pub fn delete_failed(args: &BranchDeleteArguments, remote: bool, e: &GitError) -> (r: AppError)
        ensures
            r.is(
                ErrorKind::Internal,
                "tool_failed"@,
                (if remote { "Failed to delete remote branch '"@ } else { "Failed to delete branch '"@ }) + args.branch@
                    + "' in repository '"@ + args.path@ + "': "@ + e.message@,
            ),
    {
        let head = if remote { "Failed to delete remote branch '" } else { "Failed to delete branch '" };
        let mut m = concat5(head, args.branch.as_str(), "' in repository '", args.path.as_str(), "': ");
        m.append(e.message.as_str());
        AppError::new(ErrorKind::Internal, "tool_failed", m)
    }

    /// What the tool answers once the branch is deleted.
    pub fn deleted_message(args: &BranchDeleteArguments) -> (r: String)
        ensures
            r@ == "Deleted branch '"@ + args.branch@ + "' in repository '"@ + args.path@ + "'"@
                + (if args.delete_remote { " and on remote"@ } else { ""@ }),
    {
        let mut m = concat5("Deleted branch '", args.branch.as_str(), "' in repository '", args.path.as_str(), "'");
        if args.delete_remote {
            m.append(" and on remote");
        } else {
            m.append("");
        }
        m
    }

    /// What follows the deletion of the local branch (`local` is how it
    /// went): its failure is the tool's error; else the branch is deleted on
    /// the remote next, when asked, or the tool answers.
    pub fn after_local_delete(args: &BranchDeleteArguments, local: Result<(), GitError>) -> (r: Result<BranchDeleteStep, AppError>)
        ensures
            local matches Err(g) ==> (r matches Err(e) && e.is(
                ErrorKind::Internal,
                "tool_failed"@,
                "Failed to delete branch '"@ + args.branch@ + "' in repository '"@ + args.path@ + "': "@ + g.message@,
            )),
            (local is Ok && args.delete_remote) ==> r matches Ok(BranchDeleteStep::DeleteRemote),
            (local is Ok && !args.delete_remote) ==> (r matches Ok(BranchDeleteStep::Done(m))
                && m@ == "Deleted branch '"@ + args.branch@ + "' in repository '"@ + args.path@ + "'"@),
    {
        match local {
            Err(g) => {
                let e = Self::delete_failed(args, false, &g);
                assert(e.message@ == "Failed to delete branch '"@ + args.branch@ + "' in repository '"@ + args.path@ + "': "@ + g.message@);
                Err(e)
            },
            Ok(()) => {
                if args.delete_remote {
                    Ok(BranchDeleteStep::DeleteRemote)
                } else {
                    let m = Self::deleted_message(args);
                    proof {
                        reveal_strlit("");
                    }
                    assert(m@ =~= "Deleted branch '"@ + args.branch@ + "' in repository '"@ + args.path@ + "'"@);
                    Ok(BranchDeleteStep::Done(m))
                }
            },
        }
    }

    /// The tool's answer once the branch was deleted on the remote
    /// (`remote` is how that went).
    pub fn after_remote_delete(args: &BranchDeleteArguments, remote: Result<(), GitError>) -> (r: Result<String, AppError>)
        ensures
            match remote {
                Err(g) => r matches Err(e) && e.is(
                    ErrorKind::Internal,
                    "tool_failed"@,
                    "Failed to delete remote branch '"@ + args.branch@ + "' in repository '"@ + args.path@ + "': "@ + g.message@,
                ),
                Ok(()) => r matches Ok(m) && m@ == "Deleted branch '"@ + args.branch@ + "' in repository '"@ + args.path@ + "'"@
                    + (if args.delete_remote { " and on remote"@ } else { ""@ }),
            },
    {
        match remote {
            Err(g) => Err(Self::delete_failed(args, true, &g)),
            Ok(()) => Ok(Self::deleted_message(args)),
        }
    }
}

/// The next step of the branch deletion tool after the local branch is gone.
pub enum BranchDeleteStep {
    /// Delete the branch on the remote too.
    DeleteRemote,
    /// The tool is done, with this answer.
    Done(String),
}

pub open spec fn branches_schema(s: Schema) -> bool {
    &&& s.name@ == "git_branches"@
    &&& s.description@ == ""@
    &&& s.properties@.len() == 2
    &&& repo_path_property(s.properties@[0])
    &&& property_named(s.properties@[1], "include_remote"@, false)
    &&& plain_field(s.properties@[1].field, SchemaFieldType::Boolean, "Also list remote-tracking branches, defaults to false."@)
}

/// A listed branch: marked with `*` when checked out.
pub open spec fn branch_line(name: Seq<char>, current: bool) -> Seq<char> {
    (if current { "*"@ } else { " "@ }) + " "@ + name
}

impl Branches {
    pub fn name(&self) -> (r: String)
        ensures
            r@ == "git_branches"@,
    {
        owned("git_branches")
    }

    pub fn description(&self) -> (r: String)
        ensures
            r@ == "Lists local branches in an existing repository, marking the currently checked out branch."@,
    {
        owned("Lists local branches in an existing repository, marking the currently checked out branch.")
    }

    pub fn schema(&self) -> (s: Schema)
        ensures
            branches_schema(s),
    {
        let mut schema = Schema::new("git_branches", "");
        schema.add_property("path", true, repo_path_field());
        schema.add_property(
            "include_remote",
            false,
            SchemaField::new(SchemaFieldType::Boolean, "Also list remote-tracking branches, defaults to false.", None),
        );
        schema
    }

    /// The error for a failed listing.
    pub fn list_failed(args: &BranchesArguments, e: &GitError) -> (r: AppError)
        ensures
            r.is(ErrorKind::Internal, "tool_failed"@, "Failed to list branches in repository '"@ + args.path@ + "': "@ + e.message@),
    {
        let mut m = concat3("Failed to list branches in repository '", args.path.as_str(), "': ");
        m.append(e.message.as_str());
        AppError::new(ErrorKind::Internal, "tool_failed", m)
    }

    /// The tool's answer for the listed branches (name, checked out).
    pub fn format_branches(branches: &Vec<(String, bool)>) -> (r: String)
        ensures
            branches@.len() == 0 ==> r@ == "No branches found."@,
            branches@.len() > 0 ==> r@ == join_with(branches@.map_values(|b: (String, bool)| branch_line(b.0@, b.1)), "\n"@),
    {
        if branches.len() == 0 {
            return owned("No branches found.");
        }
        let mut out: Vec<String> = Vec::new();
        let mut i: usize = 0;
        while i < branches.len()
            invariant
                i <= branches.len(),
                views(out@) == branches@.take(i as int).map_values(|b: (String, bool)| branch_line(b.0@, b.1)),
            decreases branches.len() - i,
        {
            let (name, current) = (&branches[i].0, branches[i].1);
            let line = concat3(if current { "*" } else { " " }, " ", name.as_str());
            let ghost prev = views(out@);
            out.push(line);
            proof {
                assert(views(out@) =~= prev.push(line@));
                assert(branches@.take(i + 1).map_values(|b: (String, bool)| branch_line(b.0@, b.1))
                    =~= branches@.take(i as int).map_values(|b: (String, bool)| branch_line(b.0@, b.1)).push(line@));
            }
            i = i + 1;
        }
        assert(branches@.take(branches.len() as int) =~= branches@);
        join(&out, "\n")
    }
}

pub open spec fn checkout_schema(s: Schema) -> bool {
    &&& s.name@ == "git_checkout"@
    &&& s.description@ == ""@
    &&& s.properties@.len() == 2
    &&& repo_path_property(s.properties@[0])
    &&& property_named(s.properties@[1], "branch"@, true)
    &&& plain_field(s.properties@[1].field, SchemaFieldType::String, "Name of the branch to check out."@)
}

impl Checkout {
    pub fn name(&self) -> (r: String)
        ensures
            r@ == "git_checkout"@,
    {
        owned("git_checkout")
    }

    pub fn description(&self) -> (r: String)
        ensures
            r@ == "Checks out a branch in an existing local repository, creating it locally from a matching remote-tracking branch or HEAD if needed."@,
    {
        owned("Checks out a branch in an existing local repository, creating it locally from a matching remote-tracking branch or HEAD if needed.")
    }

    pub fn schema(&self) -> (s: Schema)
        ensures
            checkout_schema(s),
    {
        let mut schema = Schema::new("git_checkout", "");
        schema.add_property("path", true, repo_path_field());
        schema.add_property("branch", true, SchemaField::new(SchemaFieldType::String, "Name of the branch to check out.", None));
        schema
    }

    /// The tool's answer, or its error when checking out failed.
    pub fn outcome(args: &CheckoutArguments, result: Result<(), GitError>) -> (r: Result<String, AppError>)
        ensures
            result is Ok ==> (r matches Ok(m) && m@ == "Checked out branch '"@ + args.branch@ + "' in repository '"@ + args.path@ + "'"@),
            result matches Err(e) ==> (r matches Err(err) && err.is(
                ErrorKind::Internal,
                "tool_failed"@,
                "Failed to check out branch '"@ + args.branch@ + "' in repository '"@ + args.path@ + "': "@ + e.message@,
            )),
    {
        match result {
            Ok(()) => Ok(concat5("Checked out branch '", args.branch.as_str(), "' in repository '", args.path.as_str(), "'")),
            Err(e) => {
                let mut m = concat5("Failed to check out branch '", args.branch.as_str(), "' in repository '", args.path.as_str(), "': ");
                m.append(e.message.as_str());
                Err(AppError::new(ErrorKind::Internal, "tool_failed", m))
            },
        }
    }
}

pub open spec fn clone_schema(s: Schema) -> bool {
    &&& s.name@ == "git_clone"@
    &&& s.description@ == ""@
    &&& s.properties@.len() == 2
    &&& property_named(s.properties@[0], "path"@, true)
    &&& plain_field(s.properties@[0].field, SchemaFieldType::String, "Absolute path within the current chroot to clone the repository into. Must not already exist."@)
    &&& property_named(s.properties@[1], "url"@, true)
    &&& plain_field(s.properties@[1].field, SchemaFieldType::String, "URL of the Git repository to clone (ssh://... / https://...)."@)
}

impl Clone {
    pub fn name(&self) -> (r: String)
        ensures
            r@ == "git_clone"@,
    {
        owned("git_clone")
    }

    pub fn description(&self) -> (r: String)
        ensures
            r@ == "Clones a Git repository into a directory within the current chroot."@,
    {
        owned("Clones a Git repository into a directory within the current chroot.")
    }

    pub fn schema(&self) -> (s: Schema)
        ensures
            clone_schema(s),
    {
        let mut schema = Schema::new("git_clone", "");
        schema.add_property(
            "path",
            true,
            SchemaField::new(SchemaFieldType::String, "Absolute path within the current chroot to clone the repository into. Must not already exist.", None),
        );
        schema.add_property(
            "url",
            true,
            SchemaField::new(SchemaFieldType::String, "URL of the Git repository to clone (ssh://... / https://...).", None),
        );
        schema
    }

    /// The tool's answer, or its error when cloning failed.
    pub fn outcome(args: &CloneArguments, result: Result<(), GitError>) -> (r: Result<String, AppError>)
        ensures
            result is Ok ==> (r matches Ok(m) && m@ == "Cloned repository '"@ + args.url@ + "' into '"@ + args.path@ + "'"@),
            result matches Err(e) ==> (r matches Err(err) && err.is(ErrorKind::Internal, "tool_failed"@, "Failed to clone repository '"@ + args.url@ + "': "@ + e.message@)),
    {
        match result {
            Ok(()) => Ok(concat5("Cloned repository '", args.url.as_str(), "' into '", args.path.as_str(), "'")),
            Err(e) => {
                let mut m = concat3("Failed to clone repository '", args.url.as_str(), "': ");
                m.append(e.message.as_str());
                Err(AppError::new(ErrorKind::Internal, "tool_failed", m))
            },
        }
    }
}

pub open spec fn diff_schema(s: Schema) -> bool {
    &&& s.name@ == "git_diff"@
    &&& s.description@ == ""@
    &&& s.properties@.len() == 3
    &&& repo_path_property(s.properties@[0])
    &&& property_named(s.properties@[1], "from"@, false)
    &&& plain_field(s.properties@[1].field, SchemaFieldType::String, "Revision to diff from (commit SHA, branch, tag, HEAD~N, etc.). Must be provided together with 'to'; omit both for unstaged changes."@)
    &&& property_named(s.properties@[2], "to"@, false)
    &&& plain_field(s.properties@[2].field, SchemaFieldType::String, "Revision to diff to (commit SHA, branch, tag, HEAD~N, etc.). Must be provided together with 'from'."@)
}

/// What the diff tool shows of a diff with these lines: at most 1000 of
/// them, then how many more there were.
pub open spec fn shown_diff(diff: Seq<char>) -> Seq<char> {
    let ls = lines_of(diff);
    if ls.len() > 1000 {
        join_with(ls.take(1000), "\n"@) + "\n... (truncated, "@ + decimal((ls.len() - 1000) as nat) + " more lines)"@
    } else {
        diff
    }
}

impl Diff {
    pub fn name(&self) -> (r: String)
        ensures
            r@ == "git_diff"@,
    {
        owned("git_diff")
    }

    pub fn description(&self) -> (r: String)
        ensures
            r@ == "Shows a diff in an existing local repository: unstaged changes against the index when 'from' and 'to' are omitted, or the diff between two revisions (commit SHAs, branch names, tags, HEAD~N, etc.) when both are given."@,
    {
        owned("Shows a diff in an existing local repository: unstaged changes against the index when 'from' and 'to' are omitted, or the diff between two revisions (commit SHAs, branch names, tags, HEAD~N, etc.) when both are given.")
    }

    pub fn schema(&self) -> (s: Schema)
        ensures
            diff_schema(s),
    {
        let mut schema = Schema::new("git_diff", "");
        schema.add_property("path", true, repo_path_field());
        schema.add_property(
            "from",
            false,
            SchemaField::new(
                SchemaFieldType::String,
                "Revision to diff from (commit SHA, branch, tag, HEAD~N, etc.). Must be provided together with 'to'; omit both for unstaged changes.",
                None,
            ),
        );
        schema.add_property(
            "to",
            false,
            SchemaField::new(
                SchemaFieldType::String,
                "Revision to diff to (commit SHA, branch, tag, HEAD~N, etc.). Must be provided together with 'from'.",
                None,
            ),
        );
        schema
    }

    /// Refuses one revision without the other.
    pub fn check_arguments(args: &DiffArguments) -> (r: Result<(), AppError>)
        ensures
            (args.from is Some != args.to is Some) ==> (r matches Err(e) && e.is(
                ErrorKind::Validation,
                "tool_failed"@,
                "Both 'from' and 'to' must be provided together, or neither, for tool 'git_diff'"@,
            )),
            (args.from is Some == args.to is Some) ==> r is Ok,
    {
        if args.from.is_some() != args.to.is_some() {
            return Err(AppError::new(
                ErrorKind::Validation,
                "tool_failed",
                owned("Both 'from' and 'to' must be provided together, or neither, for tool 'git_diff'"),
            ));
        }
        Ok(())
    }

    /// The tool's answer for the diff text, or its error when diffing failed.
    pub fn outcome(args: &DiffArguments, result: Result<String, GitError>) -> (r: Result<String, AppError>)
        ensures
            result matches Err(e) ==> (r matches Err(err) && err.is(ErrorKind::Internal, "tool_failed"@, "Failed to diff repository '"@ + args.path@ + "': "@ + e.message@)),
            result matches Ok(d) ==> (r matches Ok(m) && m@ == (if d@.len() == 0 {
                "No differences found in repository '"@ + args.path@ + "'."@
            } else {
                shown_diff(d@)
            })),
    {
        match result {
            Err(e) => {
                let mut m = concat3("Failed to diff repository '", args.path.as_str(), "': ");
                m.append(e.message.as_str());
                Err(AppError::new(ErrorKind::Internal, "tool_failed", m))
            },
            Ok(d) => {
                if d.as_str().is_empty() {
                    return Ok(concat3("No differences found in repository '", args.path.as_str(), "'."));
                }
                Ok(Self::truncate_diff(d.as_str()))
            },
        }
    }

    /// At most 1000 lines of `diff`, then how many more there were.
    pub fn truncate_diff(diff: &str) -> (r: String)
        ensures
            r@ == shown_diff(diff@),
    {
        let ls = lines(diff);
        if ls.len() > 1000 {
            let mut first: Vec<String> = Vec::new();
            let mut i: usize = 0;
            while i < 1000
                invariant
                    ls.len() > 1000,
                    i <= 1000,
                    views(first@) == views(ls@).take(i as int),
                decreases 1000 - i,
            {
                let ghost prev = views(first@);
                first.push(ls[i].clone());
                proof {
                    assert(views(first@) =~= prev.push(ls@[i as int]@));
                    assert(views(ls@).take(i + 1) =~= views(ls@).take(i as int).push(ls@[i as int]@));
                }
                i = i + 1;
            }
            let head = join(&first, "\n");
            let more = decimal_string((ls.len() - 1000) as u64);
            let mut m = concat3(head.as_str(), "\n... (truncated, ", more.as_str());
            m.append(" more lines)");
            m
        } else {
            owned(diff)
        }
    }
}

} // verus!
