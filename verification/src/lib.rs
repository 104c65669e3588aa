//! Provisioning of new projects from reusable seed templates kept in a silo.

pub mod commands;
pub mod config;
pub mod functions;
pub mod git;
pub mod init;
pub mod io;
pub mod metadata;
pub mod process;
pub mod render;
pub mod seed;
pub mod silo;
pub mod store;
pub mod template;
pub mod text;
pub mod variables;
