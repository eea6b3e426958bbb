pub mod commands;
pub mod config;
pub mod git;
pub mod laws;
pub mod status;
pub mod submodule;
pub mod text;
