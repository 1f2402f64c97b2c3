//! Verified core of a Zed extension for the Mojo language.

pub mod dap;
pub mod extension;
pub mod json;
pub mod keyed;
pub mod launch;
pub mod laws;
pub mod lsp;
pub mod platform;
pub mod sdk;
pub mod settings;
pub mod text;
pub mod worktree;
