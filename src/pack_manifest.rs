//! The manifest of a modpack: its metadata and the files it lists.
use vstd::prelude::*;

verus! {

/// One file the pack lists: a catalog project and one of its files.
#[derive(Debug, Clone, Copy, PartialEq, Eq, Structural)]
pub struct ModItem {
    pub project_id: i64,
    pub file_id: i64,
    /// Informational only: every listed file is fetched.
    pub required: bool,
}

/// A mod loader the pack runs on.
#[derive(Debug)]
pub struct ModLoaderItem {
    pub id: String,
    pub primary: bool,
}

/// The game version and loaders the pack targets.
#[derive(Debug)]
pub struct Minecraft {
    pub version: String,
    pub mod_loaders: Vec<ModLoaderItem>,
}

/// A pack's manifest document.
#[derive(Debug)]
pub struct Manifest {
    pub minecraft: Minecraft,
    pub manifest_type: String,
    pub manifest_version: i64,
    pub name: String,
    pub version: String,
    pub author: String,
    pub files: Vec<ModItem>,
    pub overrides: String,
}

} // verus!
