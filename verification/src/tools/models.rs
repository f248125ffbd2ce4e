use vstd::prelude::*;

use crate::schema::Schema;

verus! {

/// What a caller grants a tool: the path prefixes it may touch
/// (none means everywhere).
#[derive(Debug, Clone)]
pub struct ToolPermission {
    pub scopes: Vec<String>,
}

/// How a tool presents itself to a model: its name, what it does and the
/// parameters it takes.
#[derive(Debug, Clone)]
pub struct Tool {
    pub name: String,
    pub description: String,
    pub schema: Schema,
}

/// A request to run the tool `name` with the given JSON arguments.
#[derive(Debug, Clone)]
pub struct Call {
    pub name: String,
    pub arguments: String,
}

} // verus!
