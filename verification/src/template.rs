use vstd::prelude::*;

use serde_json::Value;
use tera::{Context, Tera};

use crate::error::{AppError, ErrorKind};
use crate::text::concat2;

verus! {

/// The kind of a JSON value, as `serde_json` reads it; numbers are told
/// apart as `tera` stores them (unsigned, negative, or with a fraction).
#[derive(PartialEq, Eq, Structural, Clone, Copy, Debug)]
pub enum JsonKind {
    Null,
    Bool,
    UInt,
    Int,
    Float,
    Text,
    Array,
    Object,
}

/// What `serde_json::from_str::<Value>` makes of `text`: the kind of the
/// value it reads, or the `Display` text of its error.
pub uninterp spec fn json_parse_kind(text: Seq<char>) -> Result<JsonKind, Seq<char>>;

/// What rendering `template` with the variables of the JSON object `values`
/// gives (`Tera::one_off` with escaping on): the text, or the `Display`
/// text of the error.
pub uninterp spec fn tera_rendered(template: Seq<char>, values: Seq<char>) -> Result<Seq<char>, Seq<char>>;

/// The name `tera` gives the type of a value of kind `k`.
pub open spec fn tera_type_name(k: JsonKind) -> Seq<char> {
    match k {
        JsonKind::Null => "none"@,
        JsonKind::Bool => "bool"@,
        JsonKind::UInt => "u64"@,
        JsonKind::Int => "i64"@,
        JsonKind::Float => "f64"@,
        JsonKind::Text => "string"@,
        JsonKind::Array => "array"@,
        JsonKind::Object => "map/struct"@,
    }
}

/// Why the variables of the JSON text `values` cannot be built, if they
/// cannot: the text does not parse, or is no object.
pub open spec fn context_refusal(values: Seq<char>) -> Option<Seq<char>> {
    match json_parse_kind(values) {
        Err(m) => Some(m),
        Ok(JsonKind::Object) => None,
        Ok(k) => Some("from_serialize requires a struct or map, got "@ + tera_type_name(k)),
    }
}

/// Text in which no tag, variable or comment of a template can start: each
/// of them opens with `{`.
pub open spec fn plain_text(t: Seq<char>) -> bool {
    !t.contains('{')
}

/// `serde_json::from_str` then `Context::from_serialize` of the `tera`
/// crate: whether the JSON text `values` gives template variables. `tera`
/// takes every JSON object (its keys are strings) and refuses any other
/// value with "from_serialize requires a struct or map, got " and the name
/// of its type.
#[verifier::external_body]
fn tera_context_check(values: &str) -> (r: Result<(), String>)
    ensures
        match r {
            Ok(()) => json_parse_kind(values@) == Ok::<JsonKind, Seq<char>>(JsonKind::Object),
            Err(m) => context_refusal(values@) == Some(m@),
        },
{
    let v: Value = match serde_json::from_str(values) {
        Ok(v) => v,
        Err(e) => return Err(e.to_string()),
    };
    match Context::from_serialize(&v) {
        Ok(_) => Ok(()),
        Err(e) => Err(e.to_string()),
    }
}

/// `serde_json::from_str`, `Context::from_serialize` and `Tera::one_off`
/// of the `tera` crate with escaping on: `template` rendered with the
/// variables of the JSON object `values`, named by `tera_rendered`. For
/// plain text the lexer gives one text node that is written out as it
/// stands.
#[verifier::external_body]
fn tera_render(template: &str, values: &str) -> (r: Result<String, String>)
    requires
        context_refusal(values@) is None,
    ensures
        match r {
            Ok(s) => tera_rendered(template@, values@) == Ok::<Seq<char>, Seq<char>>(s@) && (plain_text(template@) ==> s@ == template@),
            Err(m) => tera_rendered(template@, values@) == Err::<Seq<char>, Seq<char>>(m@) && !plain_text(template@),
        },
{
    let v: Value = match serde_json::from_str(values) {
        Ok(v) => v,
        Err(e) => return Err(e.to_string()),
    };
    let context = match Context::from_serialize(&v) {
        Ok(c) => c,
        Err(e) => return Err(e.to_string()),
    };
    Tera::one_off(template, &context, true).map_err(|e| e.to_string())
}

/// The error of values that cannot become template variables.
pub fn context_failed(detail: &str) -> (e: AppError)
    ensures
        e.is(ErrorKind::Internal, "template_failed"@, "Failed to build Tera context: "@ + detail@),
{
    AppError::new(ErrorKind::Internal, "template_failed", concat2("Failed to build Tera context: ", detail))
}

/// The error of a template that cannot be rendered.
pub fn render_failed(detail: &str) -> (e: AppError)
    ensures
        e.is(ErrorKind::Internal, "template_failed"@, "Failed to render template: "@ + detail@),
{
    AppError::new(ErrorKind::Internal, "template_failed", concat2("Failed to render template: ", detail))
}

/// The template engine backed by `tera`.
pub struct TeraTemplateEngine {}

impl TeraTemplateEngine {
    pub fn new() -> (t: TeraTemplateEngine) {
        TeraTemplateEngine {}
    }

    /// Renders `template` with the variables of `values` (the JSON text of
    /// an object), escaping what it inserts.
    pub fn render(&self, template: &str, values: &str) -> (r: Result<String, AppError>)
        ensures
            match context_refusal(values@) {
                Some(m) => r matches Err(e) && e.is(ErrorKind::Internal, "template_failed"@, "Failed to build Tera context: "@ + m),
                None => match tera_rendered(template@, values@) {
                    Ok(s) => r matches Ok(t) && t@ == s,
                    Err(m) => r matches Err(e) && e.is(ErrorKind::Internal, "template_failed"@, "Failed to render template: "@ + m),
                },
            },
            context_refusal(values@) is None && plain_text(template@) ==> (r matches Ok(t) && t@ == template@),
    {
        match tera_context_check(values) {
            Ok(()) => {},
            Err(m) => {
                return Err(context_failed(m.as_str()));
            },
        }
        match tera_render(template, values) {
            Ok(s) => Ok(s),
            Err(m) => Err(render_failed(m.as_str())),
        }
    }
}

} // verus!
