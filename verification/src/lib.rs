//! Composition and publishing engine for server templates.
//!
//! A *parent* is a base directory tree, a *template* overlays a parent with its
//! own files and settings, and a *map* is a shared archive that templates may
//! reference. This library holds the rules that bind the three together, the
//! composer that merges a parent tree and a template tree into one archive, and
//! the publisher that drives a template through build, push and local removal.
pub mod catalog;
pub mod config;
pub mod global;
pub mod integrity;
pub mod maps;
pub mod parents;
pub mod responses;
pub mod templates;
