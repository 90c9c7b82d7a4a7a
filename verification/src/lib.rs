//! Resolution and caching pipeline for immutable crate identities.
//!
//! A crate is addressed either by a registry name and version or by a git
//! host commit; the library resolves such an identity to its manifest
//! metadata and declared scenes, caching archive contents along the way and
//! keeping a document store's "latest" flags consistent with upstream.

pub mod errors;
pub mod strutil;
pub mod version;
pub mod ids;
pub mod storage;
pub mod registry;
pub mod github;
pub mod manifest;
pub mod docs;
pub mod latest;
pub mod unpack;
pub mod services;
