//! The logic of Luna's subcommands.
pub mod doctor;
pub mod env;
pub mod sbom;
pub mod migrate;
pub mod apply;
pub mod workspace_tasks;
pub mod moon;
pub mod pkg;
pub mod update;
pub mod quality;
pub mod ci;
pub mod scripts;
pub mod completions;
pub mod config;
pub mod plan_text;
