use vstd::prelude::*;

use crate::error::{AppError, ErrorKind};
use crate::js::{scopes_view, JavaScript, Scopes};
use crate::registry::{last_named, Registry};
use crate::schema::Schema;
use crate::text::{concat2, concat3, is_prefix, owned, strip_prefix};
use crate::skills::models;

verus! {

/// Where the directories of script packages are configured.
pub const CONFIGURATION_SKILLS_DIR: &'static str = "skills.providers.javascript.path";

/// Under which key, followed by `.js_` and a package's name, a package's
/// configuration is found.
pub const CONFIGURATION_SKILL_CONFIGURATION: &'static str = "skills.configuration";

/// A skill written in JavaScript: the directory of its package, the
/// package's name, its entry file (relative to the directory), what it
/// does, what it may reach and its parameters.
#[derive(Debug, Clone)]
pub struct Skill {
    pub directory: String,
    pub package: String,
    pub main: String,
    pub description: String,
    pub scopes: Scopes,
    pub parameters: Schema,
}

/// What a script package declares for the adapters: its skills, each
/// under a name.
pub struct Beaver {
    pub skills: Vec<(String, Skill)>,
}

/// The configuration section of a script package.
pub struct PackageConfig {
    pub beaver: Beaver,
}

/// A script package: its name and configuration.
pub struct Package {
    pub name: String,
    pub config: PackageConfig,
}

/// A skill name without the `js_` prefix under which script skills are
/// offered (unchanged when it has none).
pub open spec fn unprefixed(name: Seq<char>) -> Seq<char> {
    if is_prefix("js_"@, name) {
        name.subrange(3, name.len() as int)
    } else {
        name
    }
}

/// `d` presents the script skill `t`, registered under `name`.
pub open spec fn presents(d: models::Skill, name: Seq<char>, t: Skill) -> bool {
    &&& d.name@ == "js_"@ + name
    &&& d.description@ == t.description@
    &&& d.parameters@ == t.parameters@
}

/// `t` is `declared` as found in the package `package` in `directory`.
pub open spec fn placed(t: Skill, declared: Skill, directory: Seq<char>, package: Seq<char>) -> bool {
    &&& t.directory@ == directory
    &&& t.package@ == package
    &&& t.main == declared.main
    &&& t.description == declared.description
    &&& t.scopes == declared.scopes
    &&& t.parameters == declared.parameters
}

/// What running a script skill needs: the script, and the key of its
/// package's configuration.
pub struct ScriptRun {
    pub javascript: JavaScript,
    pub configuration_key: String,
}

/// The skills that `package`, found in `directory`, declares, each marked
/// with the directory and the package's name.
pub fn entries_of(directory: &str, package: Package) -> (r: Vec<(String, Skill)>)
    ensures
        r@.len() == package.config.beaver.skills@.len(),
        forall|i: int| 0 <= i < r@.len() ==> (#[trigger] r@[i]).0 == package.config.beaver.skills@[i].0
            && placed(r@[i].1, package.config.beaver.skills@[i].1, directory@, package.name@),
{
    let ghost declared = package.config.beaver.skills@;
    let Package { name, config } = package;
    let mut rest = config.beaver.skills;
    let mut out: Vec<(String, Skill)> = Vec::new();
    while rest.len() > 0
        invariant
            out@.len() + rest@.len() == declared.len(),
            rest@ == declared.subrange(out@.len() as int, declared.len() as int),
            forall|i: int| 0 <= i < out@.len() ==> (#[trigger] out@[i]).0 == declared[i].0
                && placed(out@[i].1, declared[i].1, directory@, name@),
        decreases rest.len(),
    {
        let (skill_name, t) = rest.remove(0);
        let placed_skill = Skill {
            directory: owned(directory),
            package: owned(name.as_str()),
            main: t.main,
            description: t.description,
            scopes: t.scopes,
            parameters: t.parameters,
        };
        out.push((skill_name, placed_skill));
    }
    out
}

/// The error of a lookup of an unknown script skill.
fn not_found(name: &str) -> (e: AppError)
    ensures
        e.is(ErrorKind::NotFound, "skill_not_found"@, "Skill with name '"@ + name@ + "' not found"@),
{
    AppError::new(ErrorKind::NotFound, "skill_not_found", concat3("Skill with name '", name, "' not found"))
}

/// The provider of skills written in JavaScript.
pub struct JavascriptProvider {
    skills: Registry<Skill>,
}

impl JavascriptProvider {
    /// The skill registered under `name`, if any.
    pub closed spec fn lookup(&self, name: Seq<char>) -> Option<Skill> {
        self.skills.lookup(name)
    }

    /// The registered names, in order.
    pub closed spec fn names(&self) -> Seq<Seq<char>> {
        self.skills.names()
    }

    /// The registered skills, in the order of their names.
    pub closed spec fn items(&self) -> Seq<Skill> {
        self.skills.items()
    }

    /// A provider with no skills until it is reloaded.
    pub fn new() -> (p: JavascriptProvider)
        ensures
            p.names().len() == 0,
    {
        JavascriptProvider { skills: Registry::new() }
    }

    /// Replaces the skills by those of the packages that loaded, given as
    /// `entries` (see `entries_of`); a name declared twice keeps its last
    /// skill.
    pub fn reload(&mut self, entries: Vec<(String, Skill)>)
        ensures
            forall|name: Seq<char>| #[trigger] final(self).lookup(name) == last_named(entries@, name),
    {
        self.skills.replace_all(entries);
    }

    /// How each skill presents itself, under its name prefixed by `js_`.
    pub fn list(&self) -> (r: Vec<models::Skill>)
        ensures
            r@.len() == self.names().len(),
            forall|i: int| 0 <= i < r@.len() ==> presents(#[trigger] r@[i], self.names()[i], self.items()[i]),
    {
        let mut out: Vec<models::Skill> = Vec::new();
        let n = self.skills.len();
        let mut i: usize = 0;
        while i < n
            invariant
                n == self.names().len(),
                i <= self.names().len(),
                self.names().len() == self.items().len(),
                out@.len() == i,
                forall|k: int| 0 <= k < i ==> presents(#[trigger] out@[k], self.names()[k], self.items()[k]),
            decreases self.names().len() - i,
        {
            let (name, t) = self.skills.entry(i);
            out.push(models::Skill {
                name: concat2("js_", name.as_str()),
                description: owned(t.description.as_str()),
                parameters: t.parameters.duplicate(),
            });
            i = i + 1;
        }
        out
    }

    /// `name` without its `js_` prefix.
    pub fn script_name(name: &str) -> (r: String)
        ensures
            r@ == unprefixed(name@),
    {
        match strip_prefix(name, "js_") {
            Some(rest) => {
                proof {
                    reveal_strlit("js_");
                }
                rest
            },
            None => owned(name),
        }
    }

    /// How the skill `name` (with or without `js_`) presents itself.
    pub fn get(&self, name: &str) -> (r: Result<models::Skill, AppError>)
        ensures
            match self.lookup(unprefixed(name@)) {
                Some(t) => r matches Ok(d) && presents(d, unprefixed(name@), t),
                None => r matches Err(e) && e.is(ErrorKind::NotFound, "skill_not_found"@, "Skill with name '"@ + unprefixed(name@) + "' not found"@),
            },
    {
        let script = Self::script_name(name);
        match self.skills.get(script.as_str()) {
            Some(t) => Ok(models::Skill {
                name: concat2("js_", script.as_str()),
                description: owned(t.description.as_str()),
                parameters: t.parameters.duplicate(),
            }),
            None => Err(not_found(script.as_str())),
        }
    }

    /// What a call of `name` runs: the skill's entry file in its directory,
    /// under its scopes, with its package's configuration.
    pub fn prepare(&self, name: &str) -> (r: Result<ScriptRun, AppError>)
        ensures
            match self.lookup(unprefixed(name@)) {
                Some(t) => r matches Ok(run) && {
                    &&& run.javascript.directory_view() == t.directory@
                    &&& run.javascript.entrypoint_view() == t.directory@ + "/"@ + t.main@
                    &&& run.javascript.scopes_of() == scopes_view(t.scopes)
                    &&& run.configuration_key@ == "skills.configuration.js_"@ + t.package@
                },
                None => r matches Err(e) && e.is(ErrorKind::NotFound, "skill_not_found"@, "Skill with name '"@ + unprefixed(name@) + "' not found"@),
            },
    {
        let script = Self::script_name(name);
        match self.skills.get(script.as_str()) {
            Some(t) => {
                let javascript = JavaScript::new(
                    owned(t.directory.as_str()),
                    concat3(t.directory.as_str(), "/", t.main.as_str()),
                    t.scopes.duplicate(),
                );
                let configuration_key = concat3(CONFIGURATION_SKILL_CONFIGURATION, ".js_", t.package.as_str());
                proof {
                    reveal_strlit("skills.configuration");
                    reveal_strlit(".js_");
                    reveal_strlit("skills.configuration.js_");
                }
                Ok(ScriptRun { javascript, configuration_key })
            },
            None => Err(not_found(script.as_str())),
        }
    }

    /// The answer of a call of `name` whose script returned `output`: the
    /// text it returned, or an error when it returned something else.
    pub fn finish(name: &str, output: Option<String>) -> (r: Result<String, AppError>)
        ensures
            match output {
                Some(s) => r matches Ok(t) && t@ == s@,
                None => r matches Err(e) && e.is(ErrorKind::Internal, "skill_failed"@, "Skill '"@ + name@ + "' execution returned non-string result."@),
            },
    {
        match output {
            Some(s) => Ok(s),
            None => Err(AppError::new(
                ErrorKind::Internal,
                "skill_failed",
                concat3("Skill '", name, "' execution returned non-string result."),
            )),
        }
    }

    /// Skills cannot be added to this provider by a program.
    pub fn add_skill(&mut self, skill: models::Skill) -> (r: Result<(), AppError>)
        ensures
            r matches Err(e) && e.is(ErrorKind::Conflict, "denied"@, "Can not programmatically add skills to the JavascriptProvider"@),
            *final(self) == *old(self),
    {
        Err(AppError::new(ErrorKind::Conflict, "denied", owned("Can not programmatically add skills to the JavascriptProvider")))
    }

    /// The error of a call of `name` whose run could not be completed.
    pub fn failed(name: &str, detail: &str) -> (e: AppError)
        ensures
            e.is(ErrorKind::Internal, "skill_failed"@, "Skill '"@ + name@ + "' execution failed: "@ + detail@),
    {
        let head = concat3("Skill '", name, "' execution failed: ");
        AppError::new(ErrorKind::Internal, "skill_failed", concat2(head.as_str(), detail))
    }
}


/// The name under which a script skill is listed leads back to it: without
/// its `js_` prefix it is the registered name.
pub proof fn listed_name_resolves(name: Seq<char>)
    ensures
        unprefixed("js_"@ + name) == name,
{
    reveal_strlit("js_");
    let full = "js_"@ + name;
    assert(is_prefix("js_"@, full)) by {
        assert(full.subrange(0, 3) =~= "js_"@);
    }
    assert(full.subrange(3, full.len() as int) =~= name);
}

} // verus!
