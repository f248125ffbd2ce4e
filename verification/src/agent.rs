use vstd::prelude::*;

use crate::error::{AppError, ErrorKind};
use crate::text::{views, char_count, concat2, concat3, ends_with, is_suffix, owned, split_char, split_on, str_eq, trim_end_matches, trim_end_seq};

verus! {

/// Where the directory of agents is configured.
pub const CONFIGURATION_AGENTS_DIR: &'static str = "agents.path";

/// The agents kept as files: each either a `<name>.yaml` file or a
/// `<name>` directory with `config.yaml` and, optionally, `prompt.md`.
pub struct File {}

/// Which files an agent is read from.
pub enum AgentSource {
    /// A single YAML file.
    Yaml { config: String },
    /// A directory: its configuration, and the prompt used when the
    /// configuration has none.
    Directory { config: String, prompt: String },
}

/// The name that an agent's path gives it: its last `/`-separated part,
/// without trailing `.yaml`s.
pub open spec fn filesystem_name(path: Seq<char>) -> Seq<char> {
    trim_end_seq(split_on(path, '/').last(), ".yaml"@)
}

/// Splitting always gives at least one part.
proof fn lemma_split_nonempty(s: Seq<char>, c: char)
    ensures
        split_on(s, c).len() >= 1,
    decreases s.len(),
{
    if s.len() > 0 {
        lemma_split_nonempty(s.drop_last(), c);
    }
}

/// The error of an agent that cannot be loaded.
fn load_failed(message: String) -> (e: AppError)
    ensures
        e.is(ErrorKind::Internal, "configuration_load_failed"@, message@),
{
    AppError::new(ErrorKind::Internal, "configuration_load_failed", message)
}

impl File {
    pub fn new() -> (f: File) {
        File {}
    }

    /// Where an agent at `path` is read from.
    pub fn source(path: &str) -> (r: AgentSource)
        ensures
            is_suffix(".yaml"@, path@) ==> (r matches AgentSource::Yaml { config } && config@ == path@),
            !is_suffix(".yaml"@, path@) ==> (r matches AgentSource::Directory { config, prompt }
                && config@ == path@ + "/config.yaml"@ && prompt@ == path@ + "/prompt.md"@),
    {
        if ends_with(path, ".yaml") {
            AgentSource::Yaml { config: owned(path) }
        } else {
            AgentSource::Directory { config: concat2(path, "/config.yaml"), prompt: concat2(path, "/prompt.md") }
        }
    }

    /// The two places an agent called `name` may be in `dir`: the YAML file
    /// (tried first) and the directory.
    pub fn candidates(dir: &str, name: &str) -> (r: (String, String))
        ensures
            r.0@ == dir@ + "/"@ + name@ + ".yaml"@,
            r.1@ == dir@ + "/"@ + name@,
    {
        let base = concat3(dir, "/", name);
        let yaml = concat2(base.as_str(), ".yaml");
        (yaml, base)
    }

    /// The name that an agent's path gives it.
    pub fn filesystem_name(path: &str) -> (r: String)
        ensures
            r@ == filesystem_name(path@),
    {
        let parts = split_char(path, '/');
        proof {
            lemma_split_nonempty(path@, '/');
            assert(views(parts@).len() == parts@.len());
        }
        let last = parts.len() - 1;
        assert(views(parts@)[last as int] == parts@[last as int]@);
        trim_end_matches(parts[last].as_str(), ".yaml")
    }

    /// Checks an agent read from `path`: it must be named after its path
    /// and have a prompt.
    pub fn validate(path: &str, name: &str, prompt: &str) -> (r: Result<(), AppError>)
        ensures
            (name@.len() == 0 || name@ != filesystem_name(path@)) ==> (r matches Err(e) && e.is(
                ErrorKind::Internal,
                "configuration_load_failed"@,
                "Agent name is missing or missmatching in config: "@ + path@,
            )),
            (name@.len() > 0 && name@ == filesystem_name(path@) && prompt@.len() == 0) ==> (r matches Err(e) && e.is(
                ErrorKind::Internal,
                "configuration_load_failed"@,
                "Agent prompt is missing in config: "@ + path@,
            )),
            (name@.len() > 0 && name@ == filesystem_name(path@) && prompt@.len() > 0) ==> r is Ok,
    {
        let fs_name = Self::filesystem_name(path);
        if char_count(name) == 0 || !str_eq(name, fs_name.as_str()) {
            return Err(load_failed(concat2("Agent name is missing or missmatching in config: ", path)));
        }
        if char_count(prompt) == 0 {
            return Err(load_failed(concat2("Agent prompt is missing in config: ", path)));
        }
        Ok(())
    }
}

} // verus!
