//! Selective reinstallation of one dependency across the workspaces of a
//! monorepo that actually depend on it.
//!
//! The pipeline is linear: read the root manifest, expand its workspace
//! glob patterns into directories, pair each directory with its own parsed
//! manifest, keep the workspaces that declare the target package, and build
//! the scoped install command to hand to the package manager.  Everything
//! here works on plain values; reading files, expanding globs on disk and
//! spawning the install command are left to the caller.

pub mod command;
pub mod json;
pub mod manifest;
pub mod pkgname;
pub mod workspaces;
