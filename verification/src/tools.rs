pub mod config;
pub mod filesystem;
pub mod text;
