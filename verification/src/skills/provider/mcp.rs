use vstd::prelude::*;

use crate::error::{AppError, ErrorKind};
use crate::mcp::McpServer;
use crate::registry::{last_named, lemma_last_named_push, Registry};
use crate::text::{concat2, concat3, owned};
use crate::skills::models;

verus! {

/// Where the MCP servers for skills are configured.
pub const MCP_SERVERS_CONFIGURATION_KEY: &'static str = "skills.providers.mcp.servers";

/// A skill offered by an MCP server: the server's name and the skill as the
/// server lists it.
#[derive(Debug, Clone)]
pub struct McpSkill {
    pub server: String,
    pub skill: models::Skill,
}

impl McpSkill {
    pub fn new(server: String, skill: models::Skill) -> (t: McpSkill)
        ensures
            t.server == server,
            t.skill == skill,
    {
        McpSkill { server, skill }
    }
}

/// The name under which the skill `skill` of the server `server` is offered.
pub open spec fn mcp_skill_name(server: Seq<char>, skill: Seq<char>) -> Seq<char> {
    "mcp_"@ + server + "_"@ + skill
}

/// `d` presents the MCP skill `t` under `name`.
pub open spec fn presents(d: models::Skill, name: Seq<char>, t: McpSkill) -> bool {
    &&& d.name@ == name
    &&& d.description@ == t.skill.description@
    &&& d.parameters@ == t.skill.parameters@
}

/// How a configured server answered a reload: it could not be reached
/// (its session did not start or it did not list its tools), it listed
/// these skills, or its session could not be ended.
pub enum ServerAnswer {
    Unreached,
    Listed(Vec<models::Skill>),
    EndFailed(AppError),
}

/// The first answer whose session could not be ended, if any.
pub open spec fn first_end_failure(a: Seq<(McpServer, ServerAnswer)>) -> Option<int>
    decreases a.len(),
{
    if a.len() == 0 {
        None
    } else {
        match first_end_failure(a.drop_last()) {
            Some(i) => Some(i),
            None => if a.last().1 is EndFailed { Some(a.len() - 1) } else { None },
        }
    }
}

/// The last server called `name` that listed its skills.
pub open spec fn served(a: Seq<(McpServer, ServerAnswer)>, name: Seq<char>) -> Option<McpServer>
    decreases a.len(),
{
    if a.len() == 0 {
        None
    } else if a.last().1 is Listed && a.last().0.name@ == name {
        Some(a.last().0)
    } else {
        served(a.drop_last(), name)
    }
}

/// The last of `skills` (listed by the server `server`) offered as `name`.
pub open spec fn last_skill_named(server: Seq<char>, skills: Seq<models::Skill>, name: Seq<char>) -> Option<models::Skill>
    decreases skills.len(),
{
    if skills.len() == 0 {
        None
    } else if mcp_skill_name(server, skills.last().name@) == name {
        Some(skills.last())
    } else {
        last_skill_named(server, skills.drop_last(), name)
    }
}

/// The server and skill last offered as `name` by the servers that listed
/// their skills.
pub open spec fn offered(a: Seq<(McpServer, ServerAnswer)>, name: Seq<char>) -> Option<(McpServer, models::Skill)>
    decreases a.len(),
{
    if a.len() == 0 {
        None
    } else {
        match a.last().1 {
            ServerAnswer::Listed(sk) => match last_skill_named(a.last().0.name@, sk@, name) {
                Some(s) => Some((a.last().0, s)),
                None => offered(a.drop_last(), name),
            },
            _ => offered(a.drop_last(), name),
        }
    }
}

/// `o` is the MCP skill that `p` describes (or both are absent).
pub open spec fn skill_as(o: Option<McpSkill>, p: Option<(McpServer, models::Skill)>) -> bool {
    match (o, p) {
        (None, None) => true,
        (Some(t), Some((s, sk))) => t.server@ == s.name@ && t.skill == sk,
        _ => false,
    }
}

proof fn lemma_failure_kept(a: Seq<(McpServer, ServerAnswer)>, m: int)
    requires
        0 <= m <= a.len(),
        first_end_failure(a.take(m)) is Some,
    ensures
        first_end_failure(a) == first_end_failure(a.take(m)),
    decreases a.len() - m,
{
    if m < a.len() {
        assert(a.take(m + 1).drop_last() =~= a.take(m));
        lemma_failure_kept(a, m + 1);
    } else {
        assert(a.take(m) =~= a);
    }
}

/// The error of a lookup of an unknown MCP skill.
fn not_found(name: &str) -> (e: AppError)
    ensures
        e.is(ErrorKind::NotFound, "skill_not_found"@, "Skill with name '"@ + name@ + "' not found"@),
{
    AppError::new(ErrorKind::NotFound, "skill_not_found", concat3("Skill with name '", name, "' not found"))
}

/// The provider of the skills of MCP servers.
pub struct McpProvider {
    skills: Registry<McpSkill>,
    server: Registry<McpServer>,
}

impl McpProvider {
    /// The skill offered under `name`, if any.
    pub closed spec fn lookup(&self, name: Seq<char>) -> Option<McpSkill> {
        self.skills.lookup(name)
    }

    /// The server called `name`, if any.
    pub closed spec fn server_named(&self, name: Seq<char>) -> Option<McpServer> {
        self.server.lookup(name)
    }

    /// The offered names, in order.
    pub closed spec fn names(&self) -> Seq<Seq<char>> {
        self.skills.names()
    }

    /// The offered skills, in the order of their names.
    pub closed spec fn items(&self) -> Seq<McpSkill> {
        self.skills.items()
    }

    /// A provider with no servers and no skills until it is reloaded.
    pub fn new() -> (p: McpProvider)
        ensures
            p.names().len() == 0,
    {
        McpProvider { skills: Registry::new(), server: Registry::new() }
    }

    /// Reloads from the configured servers' answers, in order: the servers
    /// that listed their skills and those skills replace the present ones.
    /// A session that could not be ended fails the reload and leaves the
    /// provider as it was.
    pub fn reload(&mut self, answers: Vec<(McpServer, ServerAnswer)>) -> (r: Result<(), AppError>)
        ensures
            match first_end_failure(answers@) {
                Some(i) => r matches Err(e) && answers@[i].1 == ServerAnswer::EndFailed(e) && *final(self) == *old(self),
                None => {
                    &&& r is Ok
                    &&& forall|name: Seq<char>| #[trigger] final(self).server_named(name) == served(answers@, name)
                    &&& forall|name: Seq<char>| skill_as(#[trigger] final(self).lookup(name), offered(answers@, name))
                },
            },
    {
        let ghost all = answers@;
        let mut rest = answers;
        let mut servers: Vec<(String, McpServer)> = Vec::new();
        let mut entries: Vec<(String, McpSkill)> = Vec::new();
        assert(all.take(0) =~= Seq::<(McpServer, ServerAnswer)>::empty());
        while rest.len() > 0
            invariant
                all == answers@,
                *self == *old(self),
                rest@.len() <= all.len(),
                rest@ == all.subrange(all.len() - rest@.len(), all.len() as int),
                first_end_failure(all.take(all.len() - rest@.len())) is None,
                forall|name: Seq<char>| #[trigger] last_named(servers@, name) == served(all.take(all.len() - rest@.len()), name),
                forall|name: Seq<char>| skill_as(#[trigger] last_named(entries@, name), offered(all.take(all.len() - rest@.len()), name)),
            decreases rest.len(),
        {
            let ghost done: int = all.len() - rest@.len();
            let ghost before = all.take(done);
            let ghost after = all.take(done + 1);
            assert(after.drop_last() =~= before);
            assert(rest@[0] == all[done]);
            let (server, answer) = rest.remove(0);
            assert(after.last() == (server, answer));
            match answer {
                ServerAnswer::Unreached => {
                    assert(first_end_failure(after) is None);
                    assert forall|name: Seq<char>| #[trigger] last_named(servers@, name) == served(after, name) by {}
                    assert forall|name: Seq<char>| skill_as(#[trigger] last_named(entries@, name), offered(after, name)) by {}
                },
                ServerAnswer::EndFailed(e) => {
                    proof {
                        assert(first_end_failure(after) == Some(done));
                        lemma_failure_kept(all, done + 1);
                        assert(first_end_failure(all) == Some(done));
                        assert(all[done] == after.last());
                        assert(all[done].1 == ServerAnswer::EndFailed(e));
                    }
                    return Err(e);
                },
                ServerAnswer::Listed(skills) => {
                    let ghost sk_all = skills@;
                    let ghost entries0 = entries@;
                    let sname = owned(server.name.as_str());
                    let mut left = skills;
                    assert(sk_all.take(0) =~= Seq::<models::Skill>::empty());
                    while left.len() > 0
                        invariant
                            left@.len() <= sk_all.len(),
                            left@ == sk_all.subrange(sk_all.len() - left@.len(), sk_all.len() as int),
                            sname@ == server.name@,
                            forall|name: Seq<char>| skill_as(#[trigger] last_named(entries@, name), match last_skill_named(server.name@, sk_all.take(sk_all.len() - left@.len()), name) {
                                Some(s) => Some((server, s)),
                                None => offered(before, name),
                            }),
                        decreases left.len(),
                    {
                        let ghost k: int = sk_all.len() - left@.len();
                        assert(sk_all.take(k + 1).drop_last() =~= sk_all.take(k));
                        assert(left@[0] == sk_all[k]);
                        let skill = left.remove(0);
                        let head = concat3("mcp_", sname.as_str(), "_");
                        let key = concat2(head.as_str(), skill.name.as_str());
                        let t = McpSkill::new(owned(sname.as_str()), skill);
                        let ghost old_entries = entries@;
                        entries.push((key, t));
                        proof {
                            assert forall|name: Seq<char>| skill_as(#[trigger] last_named(entries@, name), match last_skill_named(server.name@, sk_all.take(k + 1), name) {
                                Some(s) => Some((server, s)),
                                None => offered(before, name),
                            }) by {
                                lemma_last_named_push(old_entries, (key, t), name);
                            }
                        }
                    }
                    assert(sk_all.take(sk_all.len() as int) =~= sk_all);
                    let ghost old_servers = servers@;
                    servers.push((sname, server));
                    proof {
                        assert(first_end_failure(after) is None);
                        assert forall|name: Seq<char>| #[trigger] last_named(servers@, name) == served(after, name) by {
                            lemma_last_named_push(old_servers, (sname, server), name);
                        }
                        assert forall|name: Seq<char>| skill_as(#[trigger] last_named(entries@, name), offered(after, name)) by {}
                    }
                },
            }
        }
        assert(all.take(all.len() as int) =~= all);
        self.server.replace_all(servers);
        self.skills.replace_all(entries);
        Ok(())
    }

    /// Skills cannot be added to this provider by a program.
    pub fn add_skill(&mut self, skill: models::Skill) -> (r: Result<(), AppError>)
        ensures
            r matches Err(e) && e.is(ErrorKind::Conflict, "denied"@, "Can not programmatically add skills to the McpProvider"@),
            *final(self) == *old(self),
    {
        Err(AppError::new(ErrorKind::Conflict, "denied", owned("Can not programmatically add skills to the McpProvider")))
    }

    /// How each skill presents itself, under its offered name.
    pub fn list(&self) -> (r: Vec<models::Skill>)
        ensures
            r@.len() == self.names().len(),
            forall|i: int| 0 <= i < r@.len() ==> presents(#[trigger] r@[i], self.names()[i], self.items()[i]),
    {
        let mut out: Vec<models::Skill> = Vec::new();
        let n = self.skills.len();
        let mut i: usize = 0;
        while i < n
            invariant
                n == self.names().len(),
                self.names().len() == self.items().len(),
                i <= n,
                out@.len() == i,
                forall|k: int| 0 <= k < i ==> presents(#[trigger] out@[k], self.names()[k], self.items()[k]),
            decreases n - i,
        {
            let (name, t) = self.skills.entry(i);
            out.push(models::Skill {
                name: owned(name.as_str()),
                description: owned(t.skill.description.as_str()),
                parameters: t.skill.parameters.duplicate(),
            });
            i = i + 1;
        }
        out
    }

    /// How the skill offered under `name` presents itself.
    pub fn get(&self, name: &str) -> (r: Result<models::Skill, AppError>)
        ensures
            match self.lookup(name@) {
                Some(t) => r matches Ok(d) && presents(d, name@, t),
                None => r matches Err(e) && e.is(ErrorKind::NotFound, "skill_not_found"@, "Skill with name '"@ + name@ + "' not found"@),
            },
    {
        match self.skills.get(name) {
            Some(t) => Ok(models::Skill {
                name: owned(name),
                description: owned(t.skill.description.as_str()),
                parameters: t.skill.parameters.duplicate(),
            }),
            None => Err(not_found(name)),
        }
    }

    /// Where a call of `name` goes: the server that offers it, and the
    /// skill's name on that server.
    pub fn resolve(&self, name: &str) -> (r: Result<(&McpServer, String), AppError>)
        ensures
            match self.lookup(name@) {
                None => r matches Err(e) && e.is(ErrorKind::NotFound, "skill_not_found"@, "Skill with name '"@ + name@ + "' not found"@),
                Some(t) => match self.server_named(t.server@) {
                    Some(s) => r matches Ok((server, remote)) && *server == s && remote@ == t.skill.name@,
                    None => r matches Err(e) && e.is(
                        ErrorKind::NotFound,
                        "server_not_found"@,
                        "MCP server with name '"@ + t.server@ + "' not found for skill '"@ + name@ + "'"@,
                    ),
                },
            },
    {
        let t = match self.skills.get(name) {
            Some(t) => t,
            None => {
                return Err(not_found(name));
            },
        };
        match self.server.get(t.server.as_str()) {
            Some(s) => Ok((s, owned(t.skill.name.as_str()))),
            None => {
                let head = concat3("MCP server with name '", t.server.as_str(), "' not found for skill '");
                Err(AppError::new(ErrorKind::NotFound, "server_not_found", concat3(head.as_str(), name, "'")))
            },
        }
    }
}

} // verus!
