use vstd::prelude::*;

use crate::error::{AppError, ErrorKind};
use crate::tools::file::{file_tools, File};
use crate::tools::git::{git_tools, Git};
use crate::tools::models::Tool;
use crate::tools::set::{describes, first_named, lemma_first_named, not_found_message, tool_name, tool_not_found, EmbeddedTool, EmbeddedToolSet};

verus! {

/// The tools of all sets, set after set.
pub open spec fn all_tools(sets: Seq<Seq<EmbeddedTool>>) -> Seq<EmbeddedTool>
    decreases sets.len(),
{
    if sets.len() == 0 {
        Seq::empty()
    } else {
        all_tools(sets.drop_last()) + sets.last()
    }
}

/// The index of the first set that has a tool called `name`, if any.
pub open spec fn first_set_with(sets: Seq<Seq<EmbeddedTool>>, name: Seq<char>) -> Option<int> {
    if exists|i: int| 0 <= i < sets.len() && first_named(#[trigger] sets[i], name) is Some {
        Some(choose|i: int| {
            &&& 0 <= i < sets.len()
            &&& first_named(#[trigger] sets[i], name) is Some
            &&& forall|j: int| 0 <= j < i ==> first_named(#[trigger] sets[j], name) is None
        })
    } else {
        None
    }
}

/// The tool that a provider over `sets` finds under `name`: the first match
/// in the first set that has one.
pub open spec fn provider_lookup(sets: Seq<Seq<EmbeddedTool>>, name: Seq<char>) -> Option<EmbeddedTool> {
    match first_set_with(sets, name) {
        Some(i) => Some(sets[i][first_named(sets[i], name)->0]),
        None => None,
    }
}

proof fn lemma_first_set_with(sets: Seq<Seq<EmbeddedTool>>, name: Seq<char>, i: int)
    requires
        0 <= i < sets.len(),
        first_named(sets[i], name) is Some,
        forall|j: int| 0 <= j < i ==> first_named(#[trigger] sets[j], name) is None,
    ensures
        first_set_with(sets, name) == Some(i),
{
    assert(exists|k: int| 0 <= k < sets.len() && first_named(#[trigger] sets[k], name) is Some);
    let c = choose|k: int| {
        &&& 0 <= k < sets.len()
        &&& first_named(#[trigger] sets[k], name) is Some
        &&& forall|j: int| 0 <= j < k ==> first_named(#[trigger] sets[j], name) is None
    };
    assert(c == i) by {
        if c < i {
            assert(first_named(sets[c], name) is None);
        } else if c > i {
            assert(first_named(sets[i], name) is None);
        }
    }
}

/// The provider of the tools built into the adapters.
pub struct EmbeddedProvider {
    tool_sets: Vec<EmbeddedToolSet>,
}

impl EmbeddedProvider {
    /// The tools of each set, in order.
    pub closed spec fn sets(&self) -> Seq<Seq<EmbeddedTool>> {
        self.tool_sets@.map_values(|s: EmbeddedToolSet| s.tools())
    }

    /// The file tools, then the Git tools.
    pub fn new() -> (p: EmbeddedProvider)
        ensures
            p.sets().len() == 2,
            p.sets()[0] == file_tools(),
            p.sets()[1] == git_tools(),
    {
        let p = EmbeddedProvider { tool_sets: vec![File::new(), Git::new()] };
        assert(p.sets()[0] == p.tool_sets@[0].tools());
        p
    }

    /// How every tool presents itself, set after set.
    pub fn list(&self) -> (r: Vec<Tool>)
        ensures
            r@.len() == all_tools(self.sets()).len(),
            forall|i: int| 0 <= i < r@.len() ==> describes(#[trigger] r@[i], all_tools(self.sets())[i]),
    {
        let mut out: Vec<Tool> = Vec::new();
        let mut i: usize = 0;
        while i < self.tool_sets.len()
            invariant
                i <= self.tool_sets@.len(),
                self.sets().len() == self.tool_sets@.len(),
                forall|k: int| 0 <= k < self.tool_sets@.len() ==> #[trigger] self.sets()[k] == self.tool_sets@[k].tools(),
                out@.len() == all_tools(self.sets().take(i as int)).len(),
                forall|k: int| 0 <= k < out@.len() ==> describes(#[trigger] out@[k], all_tools(self.sets().take(i as int))[k]),
            decreases self.tool_sets.len() - i,
        {
            let listed = self.tool_sets[i].members();
            let ghost before = out@;
            let ghost prefix = self.sets().take(i as int);
            let ghost next = self.sets().take(i as int + 1);
            assert(next.drop_last() =~= prefix);
            assert(next.last() == self.tool_sets@[i as int].tools());
            let mut j: usize = 0;
            while j < listed.len()
                invariant
                    j <= listed@.len(),
                    listed@.len() == self.tool_sets@[i as int].tools().len(),
                    listed@ == self.tool_sets@[i as int].tools(),
                    out@.len() == before.len() + j,
                    before.len() == all_tools(prefix).len(),
                    forall|k: int| 0 <= k < before.len() ==> out@[k] == before[k],
                    forall|k: int| 0 <= k < before.len() ==> describes(#[trigger] before[k], all_tools(prefix)[k]),
                    forall|k: int| 0 <= k < j ==> describes(#[trigger] out@[before.len() + k], self.tool_sets@[i as int].tools()[k]),
                decreases listed.len() - j,
            {
                out.push(listed[j].as_tool());
                j = j + 1;
            }
            proof {
                let all = all_tools(next);
                assert(all == all_tools(prefix) + self.tool_sets@[i as int].tools());
                assert forall|k: int| 0 <= k < out@.len() implies describes(#[trigger] out@[k], all[k]) by {
                    if k < before.len() {
                        assert(out@[k] == before[k]);
                    } else {
                        assert(out@[before.len() + (k - before.len())] == out@[k]);
                    }
                }
            }
            i = i + 1;
        }
        assert(self.sets().take(self.tool_sets@.len() as int) =~= self.sets());
        out
    }

    /// The set and tool that `name` refers to.
    fn locate(&self, name: &str) -> (r: Option<EmbeddedTool>)
        ensures
            r == provider_lookup(self.sets(), name@),
    {
        let mut i: usize = 0;
        while i < self.tool_sets.len()
            invariant
                i <= self.tool_sets@.len(),
                self.sets().len() == self.tool_sets@.len(),
                forall|k: int| 0 <= k < self.tool_sets@.len() ==> #[trigger] self.sets()[k] == self.tool_sets@[k].tools(),
                forall|j: int| 0 <= j < i ==> first_named(#[trigger] self.sets()[j], name@) is None,
            decreases self.tool_sets.len() - i,
        {
            match self.tool_sets[i].find(name) {
                Some(t) => {
                    proof {
                        assert(self.sets()[i as int] == self.tool_sets@[i as int].tools());
                        lemma_first_set_with(self.sets(), name@, i as int);
                    }
                    return Some(t);
                },
                None => {
                    assert(self.sets()[i as int] == self.tool_sets@[i as int].tools());
                },
            }
            i = i + 1;
        }
        proof {
            if exists|k: int| 0 <= k < self.sets().len() && first_named(#[trigger] self.sets()[k], name@) is Some {
                let k = choose|k: int| 0 <= k < self.sets().len() && first_named(#[trigger] self.sets()[k], name@) is Some;
                assert(first_named(self.sets()[k], name@) is None);
            }
        }
        None
    }

    /// How the tool `name` presents itself; an error when no set has it.
    pub fn get(&self, name: &str) -> (r: Result<Tool, AppError>)
        ensures
            match provider_lookup(self.sets(), name@) {
                Some(t) => r matches Ok(d) && describes(d, t),
                None => r matches Err(e) && e.is(ErrorKind::NotFound, "tool_not_found"@, not_found_message(name@)),
            },
    {
        match self.locate(name) {
            Some(t) => Ok(t.as_tool()),
            None => Err(tool_not_found(name)),
        }
    }

    /// The tool that a call of `name` runs; an error when no set has it.
    pub fn resolve(&self, name: &str) -> (r: Result<EmbeddedTool, AppError>)
        ensures
            match provider_lookup(self.sets(), name@) {
                Some(t) => r == Ok::<EmbeddedTool, AppError>(t),
                None => r matches Err(e) && e.is(ErrorKind::NotFound, "tool_not_found"@, not_found_message(name@)),
            },
    {
        match self.locate(name) {
            Some(t) => Ok(t),
            None => Err(tool_not_found(name)),
        }
    }
}


/// Two different built-in tools have different names.
pub proof fn builtin_names_distinct(a: EmbeddedTool, b: EmbeddedTool)
    requires
        a != b,
    ensures
        tool_name(a) != tool_name(b),
{
    reveal_strlit("file_delete");
    reveal_strlit("file_find");
    reveal_strlit("file_mkdir");
    reveal_strlit("file_read");
    reveal_strlit("file_search");
    reveal_strlit("file_write");
    reveal_strlit("git_clone");
    reveal_strlit("git_checkout");
    reveal_strlit("git_diff");
    reveal_strlit("git_branch_delete");
    reveal_strlit("git_branches");
    assert("file_delete"@[0] == 'f' && "file_delete"@[1] == 'i' && "file_delete"@[2] == 'l' && "file_delete"@[3] == 'e' && "file_delete"@[4] == '_' && "file_delete"@[5] == 'd' && "file_delete"@[6] == 'e' && "file_delete"@[7] == 'l' && "file_delete"@[8] == 'e' && "file_delete"@[9] == 't' && "file_delete"@[10] == 'e');
    assert("file_find"@[0] == 'f' && "file_find"@[1] == 'i' && "file_find"@[2] == 'l' && "file_find"@[3] == 'e' && "file_find"@[4] == '_' && "file_find"@[5] == 'f' && "file_find"@[6] == 'i' && "file_find"@[7] == 'n' && "file_find"@[8] == 'd');
    assert("file_mkdir"@[0] == 'f' && "file_mkdir"@[1] == 'i' && "file_mkdir"@[2] == 'l' && "file_mkdir"@[3] == 'e' && "file_mkdir"@[4] == '_' && "file_mkdir"@[5] == 'm' && "file_mkdir"@[6] == 'k' && "file_mkdir"@[7] == 'd' && "file_mkdir"@[8] == 'i' && "file_mkdir"@[9] == 'r');
    assert("file_read"@[0] == 'f' && "file_read"@[1] == 'i' && "file_read"@[2] == 'l' && "file_read"@[3] == 'e' && "file_read"@[4] == '_' && "file_read"@[5] == 'r' && "file_read"@[6] == 'e' && "file_read"@[7] == 'a' && "file_read"@[8] == 'd');
    assert("file_search"@[0] == 'f' && "file_search"@[1] == 'i' && "file_search"@[2] == 'l' && "file_search"@[3] == 'e' && "file_search"@[4] == '_' && "file_search"@[5] == 's' && "file_search"@[6] == 'e' && "file_search"@[7] == 'a' && "file_search"@[8] == 'r' && "file_search"@[9] == 'c' && "file_search"@[10] == 'h');
    assert("file_write"@[0] == 'f' && "file_write"@[1] == 'i' && "file_write"@[2] == 'l' && "file_write"@[3] == 'e' && "file_write"@[4] == '_' && "file_write"@[5] == 'w' && "file_write"@[6] == 'r' && "file_write"@[7] == 'i' && "file_write"@[8] == 't' && "file_write"@[9] == 'e');
    assert("git_clone"@[0] == 'g' && "git_clone"@[1] == 'i' && "git_clone"@[2] == 't' && "git_clone"@[3] == '_' && "git_clone"@[4] == 'c' && "git_clone"@[5] == 'l' && "git_clone"@[6] == 'o' && "git_clone"@[7] == 'n' && "git_clone"@[8] == 'e');
    assert("git_checkout"@[0] == 'g' && "git_checkout"@[1] == 'i' && "git_checkout"@[2] == 't' && "git_checkout"@[3] == '_' && "git_checkout"@[4] == 'c' && "git_checkout"@[5] == 'h' && "git_checkout"@[6] == 'e' && "git_checkout"@[7] == 'c' && "git_checkout"@[8] == 'k' && "git_checkout"@[9] == 'o' && "git_checkout"@[10] == 'u' && "git_checkout"@[11] == 't');
    assert("git_diff"@[0] == 'g' && "git_diff"@[1] == 'i' && "git_diff"@[2] == 't' && "git_diff"@[3] == '_' && "git_diff"@[4] == 'd' && "git_diff"@[5] == 'i' && "git_diff"@[6] == 'f' && "git_diff"@[7] == 'f');
    assert("git_branch_delete"@[0] == 'g' && "git_branch_delete"@[1] == 'i' && "git_branch_delete"@[2] == 't' && "git_branch_delete"@[3] == '_' && "git_branch_delete"@[4] == 'b' && "git_branch_delete"@[5] == 'r' && "git_branch_delete"@[6] == 'a' && "git_branch_delete"@[7] == 'n' && "git_branch_delete"@[8] == 'c' && "git_branch_delete"@[9] == 'h' && "git_branch_delete"@[10] == '_' && "git_branch_delete"@[11] == 'd' && "git_branch_delete"@[12] == 'e' && "git_branch_delete"@[13] == 'l' && "git_branch_delete"@[14] == 'e' && "git_branch_delete"@[15] == 't' && "git_branch_delete"@[16] == 'e');
    assert("git_branches"@[0] == 'g' && "git_branches"@[1] == 'i' && "git_branches"@[2] == 't' && "git_branches"@[3] == '_' && "git_branches"@[4] == 'b' && "git_branches"@[5] == 'r' && "git_branches"@[6] == 'a' && "git_branches"@[7] == 'n' && "git_branches"@[8] == 'c' && "git_branches"@[9] == 'h' && "git_branches"@[10] == 'e' && "git_branches"@[11] == 's');
}

/// Every built-in tool is found by the provider under its own name: the
/// names that `list` shows are the names that `get` and `resolve` accept.
pub proof fn builtin_tools_found(t: EmbeddedTool)
    ensures
        provider_lookup(seq![file_tools(), git_tools()], tool_name(t)) == Some(t),
{
    let sets = seq![file_tools(), git_tools()];
    let ft = file_tools();
    let gt = git_tools();
    let name = tool_name(t);
    assert(sets[0] == ft && sets[1] == gt);
    if t == EmbeddedTool::FileDelete {
        assert forall|j: int| 0 <= j < 0 implies tool_name(#[trigger] ft[j]) != name by {
            builtin_names_distinct(ft[j], t);
        }
        lemma_first_named(ft, name, 0);
        lemma_first_set_with(sets, name, 0);
    }
    if t == EmbeddedTool::FileFind {
        assert forall|j: int| 0 <= j < 1 implies tool_name(#[trigger] ft[j]) != name by {
            builtin_names_distinct(ft[j], t);
            assert(j == 0);
        }
        lemma_first_named(ft, name, 1);
        lemma_first_set_with(sets, name, 0);
    }
    if t == EmbeddedTool::FileMkdir {
        assert forall|j: int| 0 <= j < 2 implies tool_name(#[trigger] ft[j]) != name by {
            builtin_names_distinct(ft[j], t);
            assert(j == 0 || j == 1);
        }
        lemma_first_named(ft, name, 2);
        lemma_first_set_with(sets, name, 0);
    }
    if t == EmbeddedTool::FileRead {
        assert forall|j: int| 0 <= j < 3 implies tool_name(#[trigger] ft[j]) != name by {
            builtin_names_distinct(ft[j], t);
            assert(j == 0 || j == 1 || j == 2);
        }
        lemma_first_named(ft, name, 3);
        lemma_first_set_with(sets, name, 0);
    }
    if t == EmbeddedTool::FileSearch {
        assert forall|j: int| 0 <= j < 4 implies tool_name(#[trigger] ft[j]) != name by {
            builtin_names_distinct(ft[j], t);
            assert(j == 0 || j == 1 || j == 2 || j == 3);
        }
        lemma_first_named(ft, name, 4);
        lemma_first_set_with(sets, name, 0);
    }
    if t == EmbeddedTool::FileWrite {
        assert forall|j: int| 0 <= j < 5 implies tool_name(#[trigger] ft[j]) != name by {
            builtin_names_distinct(ft[j], t);
            assert(j == 0 || j == 1 || j == 2 || j == 3 || j == 4);
        }
        lemma_first_named(ft, name, 5);
        lemma_first_set_with(sets, name, 0);
    }
    if t == EmbeddedTool::GitClone {
        assert forall|j: int| 0 <= j < 0 implies tool_name(#[trigger] gt[j]) != name by {
            builtin_names_distinct(gt[j], t);
        }
        lemma_first_named(gt, name, 0);
        assert forall|j: int| 0 <= j < 1 implies first_named(#[trigger] sets[j], name) is None by {
            assert(j == 0);
            assert forall|i: int| 0 <= i < ft.len() implies tool_name(#[trigger] ft[i]) != name by {
                builtin_names_distinct(ft[i], t);
            }
        }
        lemma_first_set_with(sets, name, 1);
    }
    if t == EmbeddedTool::GitCheckout {
        assert forall|j: int| 0 <= j < 1 implies tool_name(#[trigger] gt[j]) != name by {
            builtin_names_distinct(gt[j], t);
            assert(j == 0);
        }
        lemma_first_named(gt, name, 1);
        assert forall|j: int| 0 <= j < 1 implies first_named(#[trigger] sets[j], name) is None by {
            assert(j == 0);
            assert forall|i: int| 0 <= i < ft.len() implies tool_name(#[trigger] ft[i]) != name by {
                builtin_names_distinct(ft[i], t);
            }
        }
        lemma_first_set_with(sets, name, 1);
    }
    if t == EmbeddedTool::GitDiff {
        assert forall|j: int| 0 <= j < 2 implies tool_name(#[trigger] gt[j]) != name by {
            builtin_names_distinct(gt[j], t);
            assert(j == 0 || j == 1);
        }
        lemma_first_named(gt, name, 2);
        assert forall|j: int| 0 <= j < 1 implies first_named(#[trigger] sets[j], name) is None by {
            assert(j == 0);
            assert forall|i: int| 0 <= i < ft.len() implies tool_name(#[trigger] ft[i]) != name by {
                builtin_names_distinct(ft[i], t);
            }
        }
        lemma_first_set_with(sets, name, 1);
    }
    if t == EmbeddedTool::GitBranchDelete {
        assert forall|j: int| 0 <= j < 3 implies tool_name(#[trigger] gt[j]) != name by {
            builtin_names_distinct(gt[j], t);
            assert(j == 0 || j == 1 || j == 2);
        }
        lemma_first_named(gt, name, 3);
        assert forall|j: int| 0 <= j < 1 implies first_named(#[trigger] sets[j], name) is None by {
            assert(j == 0);
            assert forall|i: int| 0 <= i < ft.len() implies tool_name(#[trigger] ft[i]) != name by {
                builtin_names_distinct(ft[i], t);
            }
        }
        lemma_first_set_with(sets, name, 1);
    }
    if t == EmbeddedTool::GitBranches {
        assert forall|j: int| 0 <= j < 4 implies tool_name(#[trigger] gt[j]) != name by {
            builtin_names_distinct(gt[j], t);
            assert(j == 0 || j == 1 || j == 2 || j == 3);
        }
        lemma_first_named(gt, name, 4);
        assert forall|j: int| 0 <= j < 1 implies first_named(#[trigger] sets[j], name) is None by {
            assert(j == 0);
            assert forall|i: int| 0 <= i < ft.len() implies tool_name(#[trigger] ft[i]) != name by {
                builtin_names_distinct(ft[i], t);
            }
        }
        lemma_first_set_with(sets, name, 1);
    }
}

} // verus!
