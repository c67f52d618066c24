//! Repository-access layer for a forge's REST content API.
//!
//! The crate models the canonical data a forge returns (tree entries,
//! branches, commits, file metadata, pull requests), translates the raw
//! payload shapes of a GitCode-style provider onto that model, rebuilds a
//! hierarchical listing from a flat path list, and drives the
//! branch-upsert-pull-request submission workflow as a verified state
//! machine. Network, file and terminal I/O live outside this crate.

pub mod digest;
pub mod config;
pub mod encoding;
pub mod error;
pub mod get;
pub mod gitcode;
pub mod list;
pub mod provider;
pub mod strutil;
pub mod submit;
pub mod tree;
pub mod types;
