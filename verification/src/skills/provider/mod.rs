pub mod embedded;
pub mod js;
pub mod mcp;
