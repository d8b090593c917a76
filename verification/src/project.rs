//! Project records and the rules that decide who may use a project.

pub mod error;
pub mod origin;
pub mod project_data;
pub mod registry;
