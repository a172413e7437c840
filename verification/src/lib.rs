//! Core of a command-line scaffolding tool: it resolves raw command-line
//! tokens into a validated request (one optional project type plus flags),
//! decides which external tools must be confirmed before work starts, and
//! plans the ordered shell steps that create and launch a starter project.
//!
//! Everything here is pure decision logic with contracts; spawning
//! processes, touching the filesystem and talking to the console are left
//! to the thin binary built around this crate.

pub mod catalog;
pub mod data;
pub mod orchestrate;
pub mod runner;
pub mod text;
pub mod tooling;
