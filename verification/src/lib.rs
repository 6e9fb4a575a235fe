//! A Zed editor extension that launches the HyperQL language server.
//!
//! The host editor loads the extension and asks it, on demand, how to start
//! the `hyperql-lsp` binary for a given worktree. The extension resolves the
//! binary on the worktree's search path and returns a launch command; the
//! host itself spawns the process and speaks the Language Server Protocol.

pub mod command;
pub mod extension;
mod host;
