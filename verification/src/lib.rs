pub mod agent;
pub mod configuration;
pub mod error;
pub mod inference;
pub mod js;
pub mod logger;
pub mod mcp;
pub mod paths;
pub mod pattern;
pub mod registry;
pub mod schema;
pub mod skills;
pub mod template;
pub mod text;
pub mod tools;
