pub mod file;
pub mod git;
pub mod models;
pub mod provider;
pub mod set;
