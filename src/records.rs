//! Records the catalog returns: files, projects and pack versions.
use vstd::prelude::*;
use crate::mod_type::ModType;

verus! {

/// A module (top-level entry) listed inside a catalog file.
#[derive(Debug)]
pub struct FileModule {
    pub name: Option<String>,
    pub fingerprint: Option<i64>,
}

/// A game version a catalog file is marked for.
#[derive(Debug)]
pub struct SortableGameItem {
    pub game_version_name: Option<String>,
    pub game_version_padded: Option<String>,
    pub game_version: Option<String>,
    pub game_version_release_date: Option<String>,
    pub game_version_type_id: Option<i64>,
}

/// One digest of a catalog file: algorithm id (1 SHA-1, 2 MD5) and hex value.
#[derive(Debug)]
pub struct FileHashItem {
    pub value: String,
    pub algo: i64,
}

/// Catalog metadata of one file of a project.
#[derive(Debug)]
pub struct ModFileItem {
    pub id: Option<i64>,
    pub game_id: Option<i64>,
    pub mod_id: Option<i64>,
    pub is_available: Option<bool>,
    pub display_name: Option<String>,
    pub file_name: String,
    pub release_type: Option<i64>,
    pub file_status: Option<i64>,
    pub hashes: Vec<FileHashItem>,
    pub file_date: Option<String>,
    pub file_length: Option<i64>,
    pub download_count: Option<i64>,
    pub file_size_on_disk: Option<i64>,
    pub download_url: Option<String>,
    pub game_versions: Option<Vec<String>>,
    pub sortable_game_versions: Option<Vec<SortableGameItem>>,
    pub alternate_file_id: Option<i64>,
    pub is_server_pack: Option<bool>,
    pub file_fingerprint: Option<i64>,
}

/// The catalog's answer to a request for several files.
#[derive(Debug)]
pub struct ModFiles {
    pub data: Vec<ModFileItem>,
}

/// The catalog's answer to a request for one file.
#[derive(Debug)]
pub struct ModFileResponse {
    pub data: ModFileItem,
}

/// An entry of a project's index of latest files.
#[derive(Debug)]
pub struct FileIndexItem {
    pub game_version: Option<String>,
    pub file_id: Option<i64>,
    pub filename: Option<String>,
    pub release_type: Option<i64>,
    pub game_version_type_id: Option<i64>,
}

/// A module (top-level entry) listed inside a project's file.
#[derive(Debug)]
pub struct ModuleItem {
    pub name: Option<String>,
    pub fingerprint: Option<i64>,
}

/// A game version a project's file is marked for.
#[derive(Debug)]
pub struct SortableGameVersionItem {
    pub game_version_name: Option<String>,
    pub game_version_padded: Option<String>,
    pub game_version: Option<String>,
    pub game_version_release_date: Option<String>,
    pub game_version_type_id: Option<i64>,
}

/// One digest of a project's file.
#[derive(Debug)]
pub struct HashItem {
    pub value: Option<String>,
    pub algo: Option<i64>,
}

/// Metadata of one of a project's latest files.
#[derive(Debug)]
pub struct FileItem {
    pub id: Option<i64>,
    pub game_id: Option<i64>,
    pub mod_id: Option<i64>,
    pub is_available: Option<bool>,
    pub display_name: Option<String>,
    pub file_name: Option<String>,
    pub release_type: Option<i64>,
    pub file_status: Option<i64>,
    pub hashes: Option<Vec<HashItem>>,
    pub file_date: Option<String>,
    pub file_length: Option<i64>,
    pub download_count: Option<i64>,
    pub download_url: Option<Option<String>>,
    pub game_versions: Option<Vec<String>>,
    pub sortable_game_versions: Option<Vec<SortableGameVersionItem>>,
    pub alternate_file_id: Option<i64>,
    pub is_server_pack: Option<bool>,
    pub file_fingerprint: Option<i64>,
    pub modules: Option<Vec<ModuleItem>>,
}

/// An image attached to a project.
#[derive(Debug)]
pub struct Logo {
    pub id: Option<i64>,
    pub mod_id: Option<i64>,
    pub title: Option<String>,
    pub description: Option<String>,
    pub thumbnail_url: Option<String>,
    pub url: Option<String>,
}

/// An author of a project.
#[derive(Debug)]
pub struct AuthorItem {
    pub id: Option<i64>,
    pub name: Option<String>,
    pub url: Option<String>,
    pub avatar_url: Option<String>,
}

/// A category a project is filed under.
#[derive(Debug)]
pub struct CategoryItem {
    pub id: Option<i64>,
    pub game_id: Option<i64>,
    pub name: Option<String>,
    pub slug: Option<String>,
    pub url: Option<String>,
    pub icon_url: Option<String>,
    pub date_modified: Option<String>,
    pub is_class: Option<bool>,
    pub class_id: Option<i64>,
    pub parent_category_id: Option<i64>,
}

/// A project's web links.
#[derive(Debug)]
pub struct Links {
    pub website_url: Option<String>,
    pub wiki_url: Option<String>,
    pub issues_url: Option<String>,
    pub source_url: Option<Option<String>>,
}

/// Catalog metadata of one project.
#[derive(Debug)]
pub struct ProjectData {
    pub id: Option<i64>,
    pub game_id: Option<i64>,
    pub name: Option<String>,
    pub slug: Option<String>,
    pub links: Option<Links>,
    pub summary: Option<String>,
    pub status: Option<i64>,
    pub download_count: Option<i64>,
    pub is_featured: Option<bool>,
    pub primary_category_id: Option<i64>,
    pub categories: Option<Vec<CategoryItem>>,
    pub class_id: Option<ModType>,
    pub authors: Option<Vec<AuthorItem>>,
    pub logo: Option<Logo>,
    pub screenshots: Option<Vec<Logo>>,
    pub main_file_id: Option<i64>,
    pub latest_files: Option<Vec<FileItem>>,
    pub latest_files_indexes: Option<Vec<FileIndexItem>>,
    pub date_created: Option<String>,
    pub date_modified: Option<String>,
    pub date_released: Option<String>,
    pub allow_mod_distribution: Option<bool>,
    pub game_popularity_rank: Option<i64>,
    pub is_available: Option<bool>,
    pub has_comments_enabled: Option<bool>,
    pub thumbs_up_count: Option<i64>,
}

/// The catalog's answer to a request for one project.
#[derive(Debug)]
pub struct ProjectItem {
    pub data: ProjectData,
}

/// A game version a pack version is marked for.
#[derive(Debug)]
pub struct SortableGameVersion {
    pub game_version_name: Option<String>,
    pub game_version_padded: Option<String>,
    pub game_version: Option<String>,
    pub game_version_release_date: Option<String>,
    pub game_version_type_id: Option<i64>,
}

/// One digest of a pack version's archive.
#[derive(Debug)]
pub struct FileHash {
    pub value: Option<String>,
    pub algo: Option<i64>,
}

/// Catalog metadata of one version (archive) of a modpack.
#[derive(Debug)]
pub struct ModpackVersionFile {
    pub id: Option<i64>,
    pub game_id: Option<i64>,
    pub mod_id: Option<i64>,
    pub is_available: Option<bool>,
    pub display_name: Option<String>,
    pub file_name: Option<String>,
    pub release_type: Option<i64>,
    pub file_status: Option<i64>,
    pub hashes: Option<Vec<FileHash>>,
    pub file_date: Option<String>,
    pub file_length: Option<i64>,
    pub download_count: Option<i64>,
    pub file_size_on_disk: Option<i64>,
    pub download_url: Option<String>,
    pub game_versions: Option<Vec<String>>,
    pub sortable_game_versions: Option<Vec<SortableGameVersion>>,
    pub alternate_file_id: Option<i64>,
    pub is_server_pack: Option<bool>,
    pub server_pack_file_id: Option<i64>,
}

} // verus!
