use vstd::prelude::*;

use regex::Regex;

verus! {

/// The compiled regular expression of the `regex` crate.
#[verifier::external_type_specification]
#[verifier::external_body]
pub struct ExRegex(Regex);

/// What `Regex::new` makes of a pattern: `Ok` when it compiles, else the
/// `Display` text of its error.
pub uninterp spec fn regex_compile(pattern: Seq<char>) -> Result<(), Seq<char>>;

/// Whether the regex compiled from `pattern` matches somewhere in `text`
/// (`Regex::is_match`).
pub uninterp spec fn regex_is_match(pattern: Seq<char>, text: Seq<char>) -> bool;

/// A compiled regular expression together with its source.
pub struct Pattern {
    source: String,
    re: Regex,
}

impl Pattern {
    /// The pattern this regex was compiled from.
    pub closed spec fn source(&self) -> Seq<char> {
        self.source@
    }
}

/// `Regex::new` of the `regex` crate: compiles `pattern`, or gives the text
/// of the error. What compiles is named by `regex_compile`; the crate's
/// syntax and size limits are not restated.
#[verifier::external_body]
pub(crate) fn compile(pattern: &str) -> (r: Result<Pattern, String>)
    ensures
        match r {
            Ok(p) => regex_compile(pattern@) is Ok && p.source() == pattern@,
            Err(m) => regex_compile(pattern@) == Err::<(), Seq<char>>(m@),
        },
{
    match Regex::new(pattern) {
        Ok(re) => Ok(Pattern { source: pattern.to_string(), re }),
        Err(e) => Err(e.to_string()),
    }
}

/// `Regex::is_match` of the `regex` crate: whether the regex matches
/// anywhere in `text`, named by `regex_is_match`.
#[verifier::external_body]
pub(crate) fn is_match(p: &Pattern, text: &str) -> (b: bool)
    ensures
        b == regex_is_match(p.source(), text@),
{
    p.re.is_match(text)
}

} // verus!
