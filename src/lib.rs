//! Resolves a modpack manifest into download work: catalog endpoints, fallback
//! CDN URLs, bounded batches, integrity checks and the run's stage machine.
use vstd::prelude::*;

pub mod text;
pub mod error;
pub mod mod_type;
pub mod fallback_url;
pub mod integrity;
pub mod records;
pub mod pack_manifest;
pub mod orchestrator;
pub mod catalog;
pub mod pipeline;
pub mod env;
pub mod template;
