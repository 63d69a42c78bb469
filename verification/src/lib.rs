//! Metadata-and-artifact retrieval layer of a package manager.
//!
//! Given a package spec (by name, by alias), the registry-backed fetcher
//! resolves it against a scope-routed registry, retrieves and caches
//! packuments, looks up per-version metadata, and fetches the distributable
//! archive. Network transport is an injected collaborator; everything built
//! on top of it is verified.

pub mod cache;
pub mod error;
pub mod extract;
pub mod json;
pub mod laws;
pub mod npm;
pub mod package_spec;
pub mod packument;
pub mod resolution;
pub mod urls;
