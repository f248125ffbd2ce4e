use vstd::prelude::*;

use crate::error::{AppError, ErrorKind};
use crate::js::{scopes_view, JavaScript, Scopes};
use crate::registry::{last_named, Registry};
use crate::schema::Schema;
use crate::text::{concat2, concat3, is_prefix, owned, strip_prefix};
use crate::tools::models;

verus! {

/// Where the directories of script packages are configured.
pub const CONFIGURATION_TOOLS_DIR: &'static str = "tools.providers.javascript.path";

/// Under which key, followed by `.js_` and a package's name, a package's
/// configuration is found.
pub const CONFIGURATION_TOOL_CONFIGURATION: &'static str = "tools.configuration";

/// A tool written in JavaScript: the directory of its package, the
/// package's name, its entry file (relative to the directory), what it
/// does, what it may reach and its parameters.
#[derive(Debug, Clone)]
pub struct Tool {
    pub directory: String,
    pub package: String,
    pub main: String,
    pub description: String,
    pub scopes: Scopes,
    pub parameters: Schema,
}

/// A script package: its name and the tools it declares, each under a name.
pub struct Package {
    pub name: String,
    pub tools: Vec<(String, Tool)>,
}

/// A tool name without the `js_` prefix under which script tools are
/// offered (unchanged when it has none).
pub open spec fn unprefixed(name: Seq<char>) -> Seq<char> {
    if is_prefix("js_"@, name) {
        name.subrange(3, name.len() as int)
    } else {
        name
    }
}

/// `d` presents the script tool `t`, registered under `name`.
pub open spec fn presents(d: models::Tool, name: Seq<char>, t: Tool) -> bool {
    &&& d.name@ == "js_"@ + name
    &&& d.description@ == t.description@
    &&& d.schema@ == t.parameters@
}

/// `t` is `declared` as found in the package `package` in `directory`.
pub open spec fn placed(t: Tool, declared: Tool, directory: Seq<char>, package: Seq<char>) -> bool {
    &&& t.directory@ == directory
    &&& t.package@ == package
    &&& t.main == declared.main
    &&& t.description == declared.description
    &&& t.scopes == declared.scopes
    &&& t.parameters == declared.parameters
}

/// What running a script tool needs: the script, and the key of its
/// package's configuration.
pub struct ScriptRun {
    pub javascript: JavaScript,
    pub configuration_key: String,
}

/// The tools that `package`, found in `directory`, declares, each marked
/// with the directory and the package's name.
pub fn entries_of(directory: &str, package: Package) -> (r: Vec<(String, Tool)>)
    ensures
        r@.len() == package.tools@.len(),
        forall|i: int| 0 <= i < r@.len() ==> (#[trigger] r@[i]).0 == package.tools@[i].0
            && placed(r@[i].1, package.tools@[i].1, directory@, package.name@),
{
    let ghost declared = package.tools@;
    let Package { name, tools } = package;
    let mut rest = tools;
    let mut out: Vec<(String, Tool)> = Vec::new();
    while rest.len() > 0
        invariant
            out@.len() + rest@.len() == declared.len(),
            rest@ == declared.subrange(out@.len() as int, declared.len() as int),
            forall|i: int| 0 <= i < out@.len() ==> (#[trigger] out@[i]).0 == declared[i].0
                && placed(out@[i].1, declared[i].1, directory@, name@),
        decreases rest.len(),
    {
        let (tool_name, t) = rest.remove(0);
        let placed_tool = Tool {
            directory: owned(directory),
            package: owned(name.as_str()),
            main: t.main,
            description: t.description,
            scopes: t.scopes,
            parameters: t.parameters,
        };
        out.push((tool_name, placed_tool));
    }
    out
}

/// The error of a lookup of an unknown script tool.
fn not_found(name: &str) -> (e: AppError)
    ensures
        e.is(ErrorKind::NotFound, "tool_not_found"@, "Tool with name '"@ + name@ + "' not found"@),
{
    AppError::new(ErrorKind::NotFound, "tool_not_found", concat3("Tool with name '", name, "' not found"))
}

/// The provider of tools written in JavaScript.
pub struct JavascriptProvider {
    tools: Registry<Tool>,
}

impl JavascriptProvider {
    /// The tool registered under `name`, if any.
    pub closed spec fn lookup(&self, name: Seq<char>) -> Option<Tool> {
        self.tools.lookup(name)
    }

    /// The registered names, in order.
    pub closed spec fn names(&self) -> Seq<Seq<char>> {
        self.tools.names()
    }

    /// The registered tools, in the order of their names.
    pub closed spec fn items(&self) -> Seq<Tool> {
        self.tools.items()
    }

    /// A provider with no tools until it is reloaded.
    pub fn new() -> (p: JavascriptProvider)
        ensures
            p.names().len() == 0,
    {
        JavascriptProvider { tools: Registry::new() }
    }

    /// Replaces the tools by those of the packages that loaded, given as
    /// `entries` (see `entries_of`); a name declared twice keeps its last
    /// tool.
    pub fn reload(&mut self, entries: Vec<(String, Tool)>)
        ensures
            forall|name: Seq<char>| #[trigger] final(self).lookup(name) == last_named(entries@, name),
    {
        self.tools.replace_all(entries);
    }

    /// How each tool presents itself, under its name prefixed by `js_`.
    pub fn list(&self) -> (r: Vec<models::Tool>)
        ensures
            r@.len() == self.names().len(),
            forall|i: int| 0 <= i < r@.len() ==> presents(#[trigger] r@[i], self.names()[i], self.items()[i]),
    {
        let mut out: Vec<models::Tool> = Vec::new();
        let n = self.tools.len();
        let mut i: usize = 0;
        while i < n
            invariant
                n == self.names().len(),
                i <= self.names().len(),
                self.names().len() == self.items().len(),
                out@.len() == i,
                forall|k: int| 0 <= k < i ==> presents(#[trigger] out@[k], self.names()[k], self.items()[k]),
            decreases self.names().len() - i,
        {
            let (name, t) = self.tools.entry(i);
            out.push(models::Tool {
                name: concat2("js_", name.as_str()),
                description: owned(t.description.as_str()),
                schema: t.parameters.duplicate(),
            });
            i = i + 1;
        }
        out
    }

    /// `name` without its `js_` prefix.
    pub fn script_name(name: &str) -> (r: String)
        ensures
            r@ == unprefixed(name@),
    {
        match strip_prefix(name, "js_") {
            Some(rest) => {
                proof {
                    reveal_strlit("js_");
                }
                rest
            },
            None => owned(name),
        }
    }

    /// How the tool `name` (with or without `js_`) presents itself.
    pub fn get(&self, name: &str) -> (r: Result<models::Tool, AppError>)
        ensures
            match self.lookup(unprefixed(name@)) {
                Some(t) => r matches Ok(d) && presents(d, unprefixed(name@), t),
                None => r matches Err(e) && e.is(ErrorKind::NotFound, "tool_not_found"@, "Tool with name '"@ + unprefixed(name@) + "' not found"@),
            },
    {
        let script = Self::script_name(name);
        match self.tools.get(script.as_str()) {
            Some(t) => Ok(models::Tool {
                name: concat2("js_", script.as_str()),
                description: owned(t.description.as_str()),
                schema: t.parameters.duplicate(),
            }),
            None => Err(not_found(script.as_str())),
        }
    }

    /// What a call of `name` runs: the tool's entry file in its directory,
    /// under its scopes, with its package's configuration.
    pub fn prepare(&self, name: &str) -> (r: Result<ScriptRun, AppError>)
        ensures
            match self.lookup(unprefixed(name@)) {
                Some(t) => r matches Ok(run) && {
                    &&& run.javascript.directory_view() == t.directory@
                    &&& run.javascript.entrypoint_view() == t.directory@ + "/"@ + t.main@
                    &&& run.javascript.scopes_of() == scopes_view(t.scopes)
                    &&& run.configuration_key@ == "tools.configuration.js_"@ + t.package@
                },
                None => r matches Err(e) && e.is(ErrorKind::NotFound, "tool_not_found"@, "Tool with name '"@ + unprefixed(name@) + "' not found"@),
            },
    {
        let script = Self::script_name(name);
        match self.tools.get(script.as_str()) {
            Some(t) => {
                let javascript = JavaScript::new(
                    owned(t.directory.as_str()),
                    concat3(t.directory.as_str(), "/", t.main.as_str()),
                    t.scopes.duplicate(),
                );
                let configuration_key = concat3(CONFIGURATION_TOOL_CONFIGURATION, ".js_", t.package.as_str());
                proof {
                    reveal_strlit("tools.configuration");
                    reveal_strlit(".js_");
                    reveal_strlit("tools.configuration.js_");
                }
                Ok(ScriptRun { javascript, configuration_key })
            },
            None => Err(not_found(script.as_str())),
        }
    }

    /// The answer of a call of `name` whose script returned `output`: the
    /// text it returned, or an error when it returned something else.
    pub fn finish(name: &str, output: Option<String>) -> (r: Result<String, AppError>)
        ensures
            match output {
                Some(s) => r matches Ok(t) && t@ == s@,
                None => r matches Err(e) && e.is(ErrorKind::Internal, "tool_failed"@, "Tool '"@ + name@ + "' execution returned non-string result."@),
            },
    {
        match output {
            Some(s) => Ok(s),
            None => Err(AppError::new(
                ErrorKind::Internal,
                "tool_failed",
                concat3("Tool '", name, "' execution returned non-string result."),
            )),
        }
    }

    /// The error of a call of `name` whose run could not be completed.
    pub fn failed(name: &str, detail: &str) -> (e: AppError)
        ensures
            e.is(ErrorKind::Internal, "tool_failed"@, "Tool '"@ + name@ + "' execution failed: "@ + detail@),
    {
        let head = concat3("Tool '", name, "' execution failed: ");
        AppError::new(ErrorKind::Internal, "tool_failed", concat2(head.as_str(), detail))
    }
}


/// The name under which a script tool is listed leads back to it: without
/// its `js_` prefix it is the registered name.
pub proof fn listed_name_resolves(name: Seq<char>)
    ensures
        unprefixed("js_"@ + name) == name,
{
    reveal_strlit("js_");
    let full = "js_"@ + name;
    assert(is_prefix("js_"@, full)) by {
        assert(full.subrange(0, 3) =~= "js_"@);
    }
    assert(full.subrange(3, full.len() as int) =~= name);
}

} // verus!
