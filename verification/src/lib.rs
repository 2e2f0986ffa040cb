//! Static-analysis rules for Rust workspaces, with verified text heuristics.
pub mod analysis;
pub mod diagnostic;
pub mod nesting;
pub mod rules;
pub mod syntax;
pub mod text;
pub mod workspace;
pub mod toolchain;
pub mod config;
pub mod cli;
pub mod output;
