use vstd::prelude::*;

use crate::error::{AppError, ErrorKind};
use crate::mcp::McpServer;
use crate::registry::{last_named, lemma_last_named_push, Registry};
use crate::text::{concat2, concat3, owned};
use crate::tools::models;

verus! {

/// Where the MCP servers for tools are configured.
pub const MCP_SERVERS_CONFIGURATION_KEY: &'static str = "tools.providers.mcp.servers";

/// A tool offered by an MCP server: the server's name and the tool as the
/// server lists it.
#[derive(Debug, Clone)]
pub struct McpTool {
    pub server: String,
    pub tool: models::Tool,
}

impl McpTool {
    pub fn new(server: String, tool: models::Tool) -> (t: McpTool)
        ensures
            t.server == server,
            t.tool == tool,
    {
        McpTool { server, tool }
    }
}

/// The name under which the tool `tool` of the server `server` is offered.
pub open spec fn mcp_tool_name(server: Seq<char>, tool: Seq<char>) -> Seq<char> {
    "mcp_"@ + server + "_"@ + tool
}

/// `d` presents the MCP tool `t` under `name`.
pub open spec fn presents(d: models::Tool, name: Seq<char>, t: McpTool) -> bool {
    &&& d.name@ == name
    &&& d.description@ == t.tool.description@
    &&& d.schema@ == t.tool.schema@
}

/// How a configured server answered a reload: it could not be reached
/// (its session did not start or it did not list its tools), it listed
/// these tools, or its session could not be ended.
pub enum ServerAnswer {
    Unreached,
    Listed(Vec<models::Tool>),
    EndFailed(AppError),
}

/// The first answer whose session could not be ended, if any.
pub open spec fn first_end_failure(a: Seq<(McpServer, ServerAnswer)>) -> Option<int>
    decreases a.len(),
{
    if a.len() == 0 {
        None
    } else {
        match first_end_failure(a.drop_last()) {
            Some(i) => Some(i),
            None => if a.last().1 is EndFailed { Some(a.len() - 1) } else { None },
        }
    }
}

/// The last server called `name` that listed its tools.
pub open spec fn served(a: Seq<(McpServer, ServerAnswer)>, name: Seq<char>) -> Option<McpServer>
    decreases a.len(),
{
    if a.len() == 0 {
        None
    } else if a.last().1 is Listed && a.last().0.name@ == name {
        Some(a.last().0)
    } else {
        served(a.drop_last(), name)
    }
}

/// The last of `tools` (listed by the server `server`) offered as `name`.
pub open spec fn last_tool_named(server: Seq<char>, tools: Seq<models::Tool>, name: Seq<char>) -> Option<models::Tool>
    decreases tools.len(),
{
    if tools.len() == 0 {
        None
    } else if mcp_tool_name(server, tools.last().name@) == name {
        Some(tools.last())
    } else {
        last_tool_named(server, tools.drop_last(), name)
    }
}

/// The server and tool last offered as `name` by the servers that listed
/// their tools.
pub open spec fn offered(a: Seq<(McpServer, ServerAnswer)>, name: Seq<char>) -> Option<(McpServer, models::Tool)>
    decreases a.len(),
{
    if a.len() == 0 {
        None
    } else {
        match a.last().1 {
            ServerAnswer::Listed(sk) => match last_tool_named(a.last().0.name@, sk@, name) {
                Some(s) => Some((a.last().0, s)),
                None => offered(a.drop_last(), name),
            },
            _ => offered(a.drop_last(), name),
        }
    }
}

/// `o` is the MCP tool that `p` describes (or both are absent).
pub open spec fn tool_as(o: Option<McpTool>, p: Option<(McpServer, models::Tool)>) -> bool {
    match (o, p) {
        (None, None) => true,
        (Some(t), Some((s, sk))) => t.server@ == s.name@ && t.tool == sk,
        _ => false,
    }
}

proof fn lemma_failure_kept(a: Seq<(McpServer, ServerAnswer)>, m: int)
    requires
        0 <= m <= a.len(),
        first_end_failure(a.take(m)) is Some,
    ensures
        first_end_failure(a) == first_end_failure(a.take(m)),
    decreases a.len() - m,
{
    if m < a.len() {
        assert(a.take(m + 1).drop_last() =~= a.take(m));
        lemma_failure_kept(a, m + 1);
    } else {
        assert(a.take(m) =~= a);
    }
}

/// The error of a lookup of an unknown MCP tool.
fn not_found(name: &str) -> (e: AppError)
    ensures
        e.is(ErrorKind::NotFound, "tool_not_found"@, "Tool with name '"@ + name@ + "' not found"@),
{
    AppError::new(ErrorKind::NotFound, "tool_not_found", concat3("Tool with name '", name, "' not found"))
}

/// The provider of the tools of MCP servers.
pub struct McpProvider {
    tools: Registry<McpTool>,
    server: Registry<McpServer>,
}

impl McpProvider {
    /// The tool offered under `name`, if any.
    pub closed spec fn lookup(&self, name: Seq<char>) -> Option<McpTool> {
        self.tools.lookup(name)
    }

    /// The server called `name`, if any.
    pub closed spec fn server_named(&self, name: Seq<char>) -> Option<McpServer> {
        self.server.lookup(name)
    }

    /// The offered names, in order.
    pub closed spec fn names(&self) -> Seq<Seq<char>> {
        self.tools.names()
    }

    /// The offered tools, in the order of their names.
    pub closed spec fn items(&self) -> Seq<McpTool> {
        self.tools.items()
    }

    /// A provider with no servers and no tools until it is reloaded.
    pub fn new() -> (p: McpProvider)
        ensures
            p.names().len() == 0,
    {
        McpProvider { tools: Registry::new(), server: Registry::new() }
    }

    /// Reloads from the configured servers' answers, in order: the servers
    /// that listed their tools and those tools replace the present ones.
    /// A session that could not be ended fails the reload and leaves the
    /// provider as it was.
    pub fn reload(&mut self, answers: Vec<(McpServer, ServerAnswer)>) -> (r: Result<(), AppError>)
        ensures
            match first_end_failure(answers@) {
                Some(i) => r matches Err(e) && answers@[i].1 == ServerAnswer::EndFailed(e) && *final(self) == *old(self),
                None => {
                    &&& r is Ok
                    &&& forall|name: Seq<char>| #[trigger] final(self).server_named(name) == served(answers@, name)
                    &&& forall|name: Seq<char>| tool_as(#[trigger] final(self).lookup(name), offered(answers@, name))
                },
            },
    {
        let ghost all = answers@;
        let mut rest = answers;
        let mut servers: Vec<(String, McpServer)> = Vec::new();
        let mut entries: Vec<(String, McpTool)> = Vec::new();
        assert(all.take(0) =~= Seq::<(McpServer, ServerAnswer)>::empty());
        while rest.len() > 0
            invariant
                all == answers@,
                *self == *old(self),
                rest@.len() <= all.len(),
                rest@ == all.subrange(all.len() - rest@.len(), all.len() as int),
                first_end_failure(all.take(all.len() - rest@.len())) is None,
                forall|name: Seq<char>| #[trigger] last_named(servers@, name) == served(all.take(all.len() - rest@.len()), name),
                forall|name: Seq<char>| tool_as(#[trigger] last_named(entries@, name), offered(all.take(all.len() - rest@.len()), name)),
            decreases rest.len(),
        {
            let ghost done: int = all.len() - rest@.len();
            let ghost before = all.take(done);
            let ghost after = all.take(done + 1);
            assert(after.drop_last() =~= before);
            assert(rest@[0] == all[done]);
            let (server, answer) = rest.remove(0);
            assert(after.last() == (server, answer));
            match answer {
                ServerAnswer::Unreached => {
                    assert(first_end_failure(after) is None);
                    assert forall|name: Seq<char>| #[trigger] last_named(servers@, name) == served(after, name) by {}
                    assert forall|name: Seq<char>| tool_as(#[trigger] last_named(entries@, name), offered(after, name)) by {}
                },
                ServerAnswer::EndFailed(e) => {
                    proof {
                        assert(first_end_failure(after) == Some(done));
                        lemma_failure_kept(all, done + 1);
                        assert(first_end_failure(all) == Some(done));
                        assert(all[done] == after.last());
                        assert(all[done].1 == ServerAnswer::EndFailed(e));
                    }
                    return Err(e);
                },
                ServerAnswer::Listed(tools) => {
                    let ghost tl_all = tools@;
                    let ghost entries0 = entries@;
                    let sname = owned(server.name.as_str());
                    let mut left = tools;
                    assert(tl_all.take(0) =~= Seq::<models::Tool>::empty());
                    while left.len() > 0
                        invariant
                            left@.len() <= tl_all.len(),
                            left@ == tl_all.subrange(tl_all.len() - left@.len(), tl_all.len() as int),
                            sname@ == server.name@,
                            forall|name: Seq<char>| tool_as(#[trigger] last_named(entries@, name), match last_tool_named(server.name@, tl_all.take(tl_all.len() - left@.len()), name) {
                                Some(s) => Some((server, s)),
                                None => offered(before, name),
                            }),
                        decreases left.len(),
                    {
                        let ghost k: int = tl_all.len() - left@.len();
                        assert(tl_all.take(k + 1).drop_last() =~= tl_all.take(k));
                        assert(left@[0] == tl_all[k]);
                        let tool = left.remove(0);
                        let head = concat3("mcp_", sname.as_str(), "_");
                        let key = concat2(head.as_str(), tool.name.as_str());
                        let t = McpTool::new(owned(sname.as_str()), tool);
                        let ghost old_entries = entries@;
                        entries.push((key, t));
                        proof {
                            assert forall|name: Seq<char>| tool_as(#[trigger] last_named(entries@, name), match last_tool_named(server.name@, tl_all.take(k + 1), name) {
                                Some(s) => Some((server, s)),
                                None => offered(before, name),
                            }) by {
                                lemma_last_named_push(old_entries, (key, t), name);
                            }
                        }
                    }
                    assert(tl_all.take(tl_all.len() as int) =~= tl_all);
                    let ghost old_servers = servers@;
                    servers.push((sname, server));
                    proof {
                        assert(first_end_failure(after) is None);
                        assert forall|name: Seq<char>| #[trigger] last_named(servers@, name) == served(after, name) by {
                            lemma_last_named_push(old_servers, (sname, server), name);
                        }
                        assert forall|name: Seq<char>| tool_as(#[trigger] last_named(entries@, name), offered(after, name)) by {}
                    }
                },
            }
        }
        assert(all.take(all.len() as int) =~= all);
        self.server.replace_all(servers);
        self.tools.replace_all(entries);
        Ok(())
    }

    /// How each tool presents itself, under its offered name.
    pub fn list(&self) -> (r: Vec<models::Tool>)
        ensures
            r@.len() == self.names().len(),
            forall|i: int| 0 <= i < r@.len() ==> presents(#[trigger] r@[i], self.names()[i], self.items()[i]),
    {
        let mut out: Vec<models::Tool> = Vec::new();
        let n = self.tools.len();
        let mut i: usize = 0;
        while i < n
            invariant
                n == self.names().len(),
                self.names().len() == self.items().len(),
                i <= n,
                out@.len() == i,
                forall|k: int| 0 <= k < i ==> presents(#[trigger] out@[k], self.names()[k], self.items()[k]),
            decreases n - i,
        {
            let (name, t) = self.tools.entry(i);
            out.push(models::Tool {
                name: owned(name.as_str()),
                description: owned(t.tool.description.as_str()),
                schema: t.tool.schema.duplicate(),
            });
            i = i + 1;
        }
        out
    }

    /// How the tool offered under `name` presents itself.
    pub fn get(&self, name: &str) -> (r: Result<models::Tool, AppError>)
        ensures
            match self.lookup(name@) {
                Some(t) => r matches Ok(d) && presents(d, name@, t),
                None => r matches Err(e) && e.is(ErrorKind::NotFound, "tool_not_found"@, "Tool with name '"@ + name@ + "' not found"@),
            },
    {
        match self.tools.get(name) {
            Some(t) => Ok(models::Tool {
                name: owned(name),
                description: owned(t.tool.description.as_str()),
                schema: t.tool.schema.duplicate(),
            }),
            None => Err(not_found(name)),
        }
    }

    /// Where a call of `name` goes: the server that offers it, and the
    /// tool's name on that server.
    pub fn resolve(&self, name: &str) -> (r: Result<(&McpServer, String), AppError>)
        ensures
            match self.lookup(name@) {
                None => r matches Err(e) && e.is(ErrorKind::NotFound, "tool_not_found"@, "Tool with name '"@ + name@ + "' not found"@),
                Some(t) => match self.server_named(t.server@) {
                    Some(s) => r matches Ok((server, remote)) && *server == s && remote@ == t.tool.name@,
                    None => r matches Err(e) && e.is(
                        ErrorKind::NotFound,
                        "server_not_found"@,
                        "MCP server with name '"@ + t.server@ + "' not found for tool '"@ + name@ + "'"@,
                    ),
                },
            },
    {
        let t = match self.tools.get(name) {
            Some(t) => t,
            None => {
                return Err(not_found(name));
            },
        };
        match self.server.get(t.server.as_str()) {
            Some(s) => Ok((s, owned(t.tool.name.as_str()))),
            None => {
                let head = concat3("MCP server with name '", t.server.as_str(), "' not found for tool '");
                Err(AppError::new(ErrorKind::NotFound, "server_not_found", concat3(head.as_str(), name, "'")))
            },
        }
    }
}

} // verus!
