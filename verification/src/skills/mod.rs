pub mod file;
pub mod models;
pub mod provider;
