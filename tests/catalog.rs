use curseforge_pack_downloader::catalog::{
    api_key_header, file_endpoint, files_endpoint, latest_pack_archive, project_endpoint,
    ArchiveLookupError,
};
use curseforge_pack_downloader::env::Env;
use curseforge_pack_downloader::error::DownloadError;
use curseforge_pack_downloader::mod_type::{ModType, ModTypeExt};
use curseforge_pack_downloader::records::ModpackVersionFile;

fn version_file(url: Option<&str>, name: Option<&str>) -> ModpackVersionFile {
    ModpackVersionFile {
        id: Some(1),
        game_id: Some(432),
        mod_id: Some(2),
        is_available: Some(true),
        display_name: None,
        file_name: name.map(|n| n.to_string()),
        release_type: None,
        file_status: None,
        hashes: None,
        file_date: None,
        file_length: None,
        download_count: None,
        file_size_on_disk: None,
        download_url: url.map(|u| u.to_string()),
        game_versions: None,
        sortable_game_versions: None,
        alternate_file_id: None,
        is_server_pack: None,
        server_pack_file_id: None,
    }
}

#[test]
fn endpoints() {
    assert_eq!(project_endpoint(238222), "https://api.curseforge.com/v1/mods/238222");
    assert_eq!(file_endpoint(238222, 5101366), "https://api.curseforge.com/v1/mods/238222/files/5101366");
    assert_eq!(files_endpoint(0), "https://api.curseforge.com/v1/mods/0/files");
}

#[test]
fn api_key_accepted() {
    let v = api_key_header("$2a$10$abcDEF").unwrap();
    assert_eq!(v.to_str().unwrap(), "$2a$10$abcDEF");
}

#[test]
fn api_key_absent_or_malformed() {
    assert_eq!(api_key_header("").unwrap_err(), DownloadError::ConfigurationError);
    assert_eq!(api_key_header("abc\ndef").unwrap_err(), DownloadError::ConfigurationError);
    assert_eq!(api_key_header("abc\u{7f}").unwrap_err(), DownloadError::ConfigurationError);
    assert!(api_key_header("with\ttab").is_ok());
}

#[test]
fn latest_archive_is_first_file() {
    let files = vec![
        version_file(Some("https://x/new.zip"), Some("new.zip")),
        version_file(Some("https://x/old.zip"), Some("old.zip")),
    ];
    let a = latest_pack_archive(&files).unwrap();
    assert_eq!(a.download_url, "https://x/new.zip");
    assert_eq!(a.file_name, "new.zip");
}

#[test]
fn latest_archive_errors() {
    assert_eq!(latest_pack_archive(&vec![]).unwrap_err(), ArchiveLookupError::NoFiles);
    assert_eq!(
        latest_pack_archive(&vec![version_file(None, Some("a.zip"))]).unwrap_err(),
        ArchiveLookupError::MissingDownloadUrl
    );
    assert_eq!(
        latest_pack_archive(&vec![version_file(Some("https://x"), None)]).unwrap_err(),
        ArchiveLookupError::MissingFileName
    );
}

#[test]
fn mod_type_class_ids() {
    assert_eq!(ModType::try_from(6), Ok(ModType::Mod));
    assert_eq!(ModType::try_from(12), Ok(ModType::ResourcePack));
    assert_eq!(ModType::try_from(6552), Ok(ModType::ShaderPack));
    assert_eq!(ModType::try_from(4471), Ok(ModType::ModPack));
    assert!(ModType::try_from(7).is_err());
    assert_eq!(i64::from(ModType::ShaderPack), 6552);
    assert_eq!(ModType::ModPack.class_id(), 4471);
}

#[test]
fn mod_type_paths_and_queries() {
    assert_eq!(ModType::Mod.to_path(), "mods");
    assert_eq!(ModType::ResourcePack.to_path(), "resourcepacks");
    assert_eq!(ModType::ShaderPack.to_path(), "shaderpacks");
    assert_eq!(ModType::ModPack.to_path(), "modpacks");
    assert!(ModType::Mod.is_mod());
    assert!(ModType::ResourcePack.is_resource_pack());
    assert!(ModType::ShaderPack.is_shader_pack());
    assert!(ModType::ModPack.is_mod_pack());
    assert!(!ModType::Mod.is_mod_pack());
}

#[test]
fn env_reads_api_key() {
    let env = Env::new("# settings\ncurseforge_api_key=abc123 # trailing\nother=1\n");
    assert_eq!(env.curseforge_api_key, "abc123 ");
}

#[test]
fn env_key_any_case_and_crlf() {
    let env = Env::new("CURSEFORGE_API_KEY=XyZ\r\n");
    assert_eq!(env.curseforge_api_key, "XyZ");
}

#[test]
fn env_value_stops_at_second_equals() {
    let env = Env::new("curseforge_api_key=a=b");
    assert_eq!(env.curseforge_api_key, "a");
}

#[test]
fn env_missing_key_is_empty() {
    assert_eq!(Env::new("").curseforge_api_key, "");
    assert_eq!(Env::new("#curseforge_api_key=x\nkey=y").curseforge_api_key, "");
    assert_eq!(Env::new("curseforge_api_key").curseforge_api_key, "");
}

#[test]
fn env_last_setting_wins() {
    let env = Env::new("curseforge_api_key=first\ncurseforge_api_key=second\n");
    assert_eq!(env.curseforge_api_key, "second");
}

#[test]
fn env_bare_carriage_return_on_last_line_is_kept() {
    let env = Env::new("curseforge_api_key=abc\r");
    assert_eq!(env.curseforge_api_key, "abc\r");
}
