pub mod config;
pub mod directory;
pub mod environment;
pub mod file_filter;
pub mod loader;
pub mod reader;
