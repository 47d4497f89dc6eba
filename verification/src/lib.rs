pub mod text;
pub mod order;
pub mod num;
pub mod security;
pub mod cli;
pub mod config;
pub mod deps;
pub mod formats;
pub mod execution;
pub mod planner;
pub mod diagnostics;
pub mod adapters;
pub mod runner;
pub mod output;
pub mod commands;
pub mod agent;
pub mod session;
