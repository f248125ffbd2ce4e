use vstd::prelude::*;

use crate::error::{AppError, ErrorKind};
use crate::registry::Registry;
use crate::skills::file::{file_skill_schema, File};
use crate::skills::models;
use crate::text::{concat3, owned};

verus! {

/// `d` is a copy of the skill `s`, registered under `name`.
pub open spec fn copy_of(d: models::Skill, name: Seq<char>, s: models::Skill) -> bool {
    &&& d.name@ == name
    &&& d.description@ == s.description@
    &&& d.parameters@ == s.parameters@
}

/// The error of a lookup of an unknown skill.
fn not_found(name: &str) -> (e: AppError)
    ensures
        e.is(ErrorKind::NotFound, "skill_not_found"@, "Skill with name '"@ + name@ + "' not found"@),
{
    AppError::new(ErrorKind::NotFound, "skill_not_found", concat3("Skill with name '", name, "' not found"))
}

/// The provider of the skills built into the adapters, and of skills added
/// while it runs; each name is taken once.
pub struct EmbeddedProvider {
    skills: Registry<models::Skill>,
}

impl EmbeddedProvider {
    /// The skill called `name`, if any.
    pub closed spec fn lookup(&self, name: Seq<char>) -> Option<models::Skill> {
        self.skills.lookup(name)
    }

    /// The names of the skills, in the order they were added.
    pub closed spec fn names(&self) -> Seq<Seq<char>> {
        self.skills.names()
    }

    /// The skills, in the order of their names.
    pub closed spec fn items(&self) -> Seq<models::Skill> {
        self.skills.items()
    }

    /// The provider with the file skill.
    pub fn new() -> (p: EmbeddedProvider)
        ensures
            p.names() == seq!["file"@],
            p.lookup("file"@) matches Some(s) && s.name@ == "file"@ && file_skill_schema(s.parameters)
                && s.description@ == "A skill for reading/writing files and listing directories."@,
    {
        let mut skills: Registry<models::Skill> = Registry::new();
        let file = File.as_skill();
        skills.insert(owned("file"), file);
        assert(skills.names() =~= seq!["file"@]);
        EmbeddedProvider { skills }
    }

    /// Adds `skill` after the others; refused when a skill of that name is
    /// there already.
    pub fn add_skill(&mut self, skill: models::Skill) -> (r: Result<(), AppError>)
        ensures
            old(self).names().contains(skill.name@) ==> {
                &&& r matches Err(e) && e.is(ErrorKind::Conflict, "skill_already_exists"@, "Skill with name '"@ + skill.name@ + "' already exists"@)
                &&& *final(self) == *old(self)
            },
            !old(self).names().contains(skill.name@) ==> {
                &&& r is Ok
                &&& final(self).names() == old(self).names().push(skill.name@)
                &&& final(self).lookup(skill.name@) == Some(skill)
                &&& forall|other: Seq<char>| other != skill.name@ ==> #[trigger] final(self).lookup(other) == old(self).lookup(other)
            },
    {
        match self.skills.position(skill.name.as_str()) {
            Some(_) => Err(AppError::new(
                ErrorKind::Conflict,
                "skill_already_exists",
                concat3("Skill with name '", skill.name.as_str(), "' already exists"),
            )),
            None => {
                let name = owned(skill.name.as_str());
                self.skills.insert(name, skill);
                Ok(())
            },
        }
    }

    /// How each skill presents itself, in order.
    pub fn list(&self) -> (r: Vec<models::Skill>)
        ensures
            r@.len() == self.names().len(),
            forall|i: int| 0 <= i < r@.len() ==> copy_of(#[trigger] r@[i], self.names()[i], self.items()[i]),
    {
        let mut out: Vec<models::Skill> = Vec::new();
        let n = self.skills.len();
        let mut i: usize = 0;
        while i < n
            invariant
                n == self.names().len(),
                self.names().len() == self.items().len(),
                i <= n,
                out@.len() == i,
                forall|k: int| 0 <= k < i ==> copy_of(#[trigger] out@[k], self.names()[k], self.items()[k]),
            decreases n - i,
        {
            let (name, s) = self.skills.entry(i);
            out.push(models::Skill {
                name: owned(name.as_str()),
                description: owned(s.description.as_str()),
                parameters: s.parameters.duplicate(),
            });
            i = i + 1;
        }
        out
    }

    /// How the skill `name` presents itself.
    pub fn get(&self, name: &str) -> (r: Result<models::Skill, AppError>)
        ensures
            match self.lookup(name@) {
                Some(s) => r matches Ok(d) && copy_of(d, name@, s),
                None => r matches Err(e) && e.is(ErrorKind::NotFound, "skill_not_found"@, "Skill with name '"@ + name@ + "' not found"@),
            },
    {
        match self.skills.get(name) {
            Some(s) => Ok(models::Skill {
                name: owned(name),
                description: owned(s.description.as_str()),
                parameters: s.parameters.duplicate(),
            }),
            None => Err(not_found(name)),
        }
    }

    /// The position of the skill that a call of `name` runs.
    pub fn resolve(&self, name: &str) -> (r: Result<usize, AppError>)
        ensures
            match r {
                Ok(i) => i < self.names().len() && self.names()[i as int] == name@,
                Err(e) => !self.names().contains(name@) && e.is(ErrorKind::NotFound, "skill_not_found"@, "Skill with name '"@ + name@ + "' not found"@),
            },
    {
        match self.skills.position(name) {
            Some(i) => Ok(i),
            None => Err(not_found(name)),
        }
    }
}

} // verus!
