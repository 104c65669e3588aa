//! Helpers for templates that come as packed archives or are filled in by pattern.

pub mod get_template_from_repo;
pub mod replace_vars;
