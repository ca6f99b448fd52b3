//! Client library for a mod-distribution service: search-query building,
//! project metadata models, and the modpack installation pipeline:
//! archive unpacking with path-traversal defense, manifest decoding, and
//! per-entry fetch planning. The pipeline's logic is verified; callers
//! perform the filesystem and network work it plans.

pub mod errors;
pub mod extract;
pub mod fetch;
pub mod install;
pub mod json;
pub mod manifest;
pub mod models;
pub mod mrpack;
pub mod paths;
pub mod search;
pub mod strutil;
